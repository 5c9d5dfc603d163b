use vstd::prelude::*;

verus! {

/// A length in a style property. The numeric variants carry the IEEE-754 bit
/// pattern of their `f32` value: the library stores and compares such values
/// but never computes with them.
#[derive(Clone, Copy, Debug, PartialEq, Eq, Structural)]
pub enum Units {
    Pixels(u32),
    Percentage(u32),
    Stretch(u32),
    Auto,
}

/// An RGBA color with 8 bits per channel.
#[derive(Clone, Copy, Debug, PartialEq, Eq, Structural)]
pub struct Color {
    pub r: u8,
    pub g: u8,
    pub b: u8,
    pub a: u8,
}

impl Color {
    pub fn rgba(r: u8, g: u8, b: u8, a: u8) -> (c: Self)
        ensures
            c == (Color { r, g, b, a }),
    {
        Color { r, g, b, a }
    }
}

/// A shadow drawn around a widget's box.
#[derive(Clone, Copy, Debug, PartialEq, Eq, Structural)]
pub struct BoxShadow {
    pub horizontal_offset: Units,
    pub vertical_offset: Units,
    pub blur_radius: Units,
    pub color: Color,
}

/// The shadow that a widget has when its style sets none: automatic offsets
/// and blur, in half-transparent black.
pub open spec fn default_box_shadow() -> BoxShadow {
    BoxShadow {
        horizontal_offset: Units::Auto,
        vertical_offset: Units::Auto,
        blur_radius: Units::Auto,
        color: Color { r: 0, g: 0, b: 0, a: 128 },
    }
}

impl Default for BoxShadow {
    fn default() -> (s: Self)
        ensures
            s == default_box_shadow(),
            s.horizontal_offset == Units::Auto,
            s.vertical_offset == Units::Auto,
            s.blur_radius == Units::Auto,
            s.color == (Color { r: 0, g: 0, b: 0, a: 128 }),
    {
        BoxShadow {
            horizontal_offset: Units::Auto,
            vertical_offset: Units::Auto,
            blur_radius: Units::Auto,
            color: Color::rgba(0, 0, 0, 128),
        }
    }
}

} // verus!
