use vstd::prelude::*;

verus! {

/// An RGB color value, one byte per channel.
///
/// The table treats colors as plain values: they are built once from an
/// indexed color number sent by the editor and thereafter only copied and
/// compared.
#[derive(Clone, Copy, PartialEq, Eq, Structural, Debug)]
pub struct Color {
    pub red: u8,
    pub green: u8,
    pub blue: u8,
}

impl Color {
    /// The color an indexed color number denotes: the low three bytes of
    /// the index are the red, green and blue channels.
    pub open spec fn spec_from_indexed(index: u64) -> Color {
        Color {
            red: ((index >> 16) & 0xff) as u8,
            green: ((index >> 8) & 0xff) as u8,
            blue: (index & 0xff) as u8,
        }
    }

    /// Resolve an indexed color number to its concrete color.
    pub fn from_indexed_color(index: u64) -> (c: Color)
        ensures
            c == Color::spec_from_indexed(index),
    {
        let red: u64 = (index >> 16) & 0xff;
        let green: u64 = (index >> 8) & 0xff;
        let blue: u64 = index & 0xff;
        Color { red: red as u8, green: green as u8, blue: blue as u8 }
    }
}

} // verus!
