//! Colours: the opaque three-channel [`Pixel`] of a pixel array and the
//! four-channel [`Color`] of a shape's style.

use vstd::prelude::*;

verus! {

/// One pixel of a [`crate::pixel_array::PixelArray`]: red, green and blue, each from 0 to 255.
#[derive(Clone, Copy, Debug, PartialEq, Eq, Structural)]
pub struct Pixel {
    pub red: u8,
    pub green: u8,
    pub blue: u8,
}

impl Pixel {
    /// The pixel with the given channels.
    pub fn with(red: u8, green: u8, blue: u8) -> (r: Pixel)
        ensures
            r == (Pixel { red, green, blue }),
    {
        Pixel { red, green, blue }
    }

    /// White.
    pub fn white() -> (r: Pixel)
        ensures
            r == (Pixel { red: 255, green: 255, blue: 255 }),
    {
        Pixel { red: 255, green: 255, blue: 255 }
    }

    /// Black.
    pub fn black() -> (r: Pixel)
        ensures
            r == (Pixel { red: 0, green: 0, blue: 0 }),
    {
        Pixel { red: 0, green: 0, blue: 0 }
    }

    /// Pure red.
    pub fn red() -> (r: Pixel)
        ensures
            r == (Pixel { red: 255, green: 0, blue: 0 }),
    {
        Pixel { red: 255, green: 0, blue: 0 }
    }

    /// Pure green.
    pub fn green() -> (r: Pixel)
        ensures
            r == (Pixel { red: 0, green: 255, blue: 0 }),
    {
        Pixel { red: 0, green: 255, blue: 0 }
    }

    /// Pure blue.
    pub fn blue() -> (r: Pixel)
        ensures
            r == (Pixel { red: 0, green: 0, blue: 255 }),
    {
        Pixel { red: 0, green: 0, blue: 255 }
    }

    /// Red and green.
    pub fn yellow() -> (r: Pixel)
        ensures
            r == (Pixel { red: 255, green: 255, blue: 0 }),
    {
        Pixel { red: 255, green: 255, blue: 0 }
    }

    /// Green and blue.
    pub fn cyan() -> (r: Pixel)
        ensures
            r == (Pixel { red: 0, green: 255, blue: 255 }),
    {
        Pixel { red: 0, green: 255, blue: 255 }
    }

    /// Red and blue.
    pub fn magenta() -> (r: Pixel)
        ensures
            r == (Pixel { red: 255, green: 0, blue: 255 }),
    {
        Pixel { red: 255, green: 0, blue: 255 }
    }
}

/// Red, green, blue and alpha, each from 0 to 255. Alpha 0 is fully
/// transparent, alpha 255 fully opaque.
#[derive(Clone, Copy, Debug, PartialEq, Eq, Structural)]
pub struct Color {
    pub red: u8,
    pub green: u8,
    pub blue: u8,
    pub alpha: u8,
}

impl Color {
    /// The colour with the given channels.
    pub fn with(red: u8, green: u8, blue: u8, alpha: u8) -> (r: Color)
        ensures
            r == (Color { red, green, blue, alpha }),
    {
        Color { red, green, blue, alpha }
    }

    /// Black with alpha 0.
    pub fn transparent() -> (r: Color)
        ensures
            r == (Color { red: 0, green: 0, blue: 0, alpha: 0 }),
    {
        Color { red: 0, green: 0, blue: 0, alpha: 0 }
    }

    /// White, fully opaque.
    pub fn white() -> (r: Color)
        ensures
            r == (Color { red: 255, green: 255, blue: 255, alpha: 255 }),
    {
        Color { red: 255, green: 255, blue: 255, alpha: 255 }
    }

    /// Black, fully opaque.
    pub fn black() -> (r: Color)
        ensures
            r == (Color { red: 0, green: 0, blue: 0, alpha: 255 }),
    {
        Color { red: 0, green: 0, blue: 0, alpha: 255 }
    }

    /// Pure red, fully opaque.
    pub fn red() -> (r: Color)
        ensures
            r == (Color { red: 255, green: 0, blue: 0, alpha: 255 }),
    {
        Color { red: 255, green: 0, blue: 0, alpha: 255 }
    }

    /// Pure green, fully opaque.
    pub fn green() -> (r: Color)
        ensures
            r == (Color { red: 0, green: 255, blue: 0, alpha: 255 }),
    {
        Color { red: 0, green: 255, blue: 0, alpha: 255 }
    }

    /// Pure blue, fully opaque.
    pub fn blue() -> (r: Color)
        ensures
            r == (Color { red: 0, green: 0, blue: 255, alpha: 255 }),
    {
        Color { red: 0, green: 0, blue: 255, alpha: 255 }
    }

    /// Red and green, fully opaque.
    pub fn yellow() -> (r: Color)
        ensures
            r == (Color { red: 255, green: 255, blue: 0, alpha: 255 }),
    {
        Color { red: 255, green: 255, blue: 0, alpha: 255 }
    }

    /// Green and blue, fully opaque.
    pub fn cyan() -> (r: Color)
        ensures
            r == (Color { red: 0, green: 255, blue: 255, alpha: 255 }),
    {
        Color { red: 0, green: 255, blue: 255, alpha: 255 }
    }

    /// Red and blue, fully opaque.
    pub fn magenta() -> (r: Color)
        ensures
            r == (Color { red: 255, green: 0, blue: 255, alpha: 255 }),
    {
        Color { red: 255, green: 0, blue: 255, alpha: 255 }
    }
}

} // verus!
