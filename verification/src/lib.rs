pub mod attr_value;
pub mod color;
pub mod highlight;
pub mod highlight_map;

pub use attr_value::AttrValue;
pub use color::Color;
pub use highlight::Highlight;
pub use highlight_map::Cell;
pub use highlight_map::HighlightMap;
