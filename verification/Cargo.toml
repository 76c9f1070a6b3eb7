[package]
name = "nvim_hl"
version = "0.1.0"
edition = "2021"
publish = false

[dependencies]
neovim-lib = "=0.6.1"
rmp = "=0.8.8"
serde = { version = "=1.0.229", features = ["derive"] }
serde_json = "=1.0.151"
gtk = "=0.19.0"
glib = "=0.22.10"
