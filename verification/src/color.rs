//! Colours, as the descriptors of this crate carry them.

use crate::binary32::ONE;
use vstd::prelude::*;

verus! {

/// A colour in one of three colour spaces, each component held as its
/// binary32 word. The crate stores colours and hands them on; it reads no
/// component.
#[derive(Clone, Copy, Debug, PartialEq, Eq, Structural)]
pub enum Color {
    /// sRGB with alpha.
    Rgba { red: u32, green: u32, blue: u32, alpha: u32 },
    /// Linear sRGB with alpha.
    RgbaLinear { red: u32, green: u32, blue: u32, alpha: u32 },
    /// Hue, saturation and lightness with alpha.
    Hsla { hue: u32, saturation: u32, lightness: u32, alpha: u32 },
}

impl Color {
    /// White: opaque sRGB with every channel at `1.0`.
    pub open spec fn white() -> Color {
        Color::Rgba { red: ONE, green: ONE, blue: ONE, alpha: ONE }
    }

    /// The opaque sRGB colour with the given channel words.
    pub fn rgb(red: u32, green: u32, blue: u32) -> (color: Color)
        ensures
            color == (Color::Rgba { red, green, blue, alpha: ONE }),
    {
        Color::Rgba { red, green, blue, alpha: ONE }
    }
}

} // verus!
