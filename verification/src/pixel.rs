use vstd::prelude::*;

verus! {

/// One RGBA color sample: four 8-bit channels, red, green, blue, alpha.
#[derive(Clone, Copy, Debug, PartialEq, Eq, Structural)]
pub struct Pixel {
    pub r: u8,
    pub g: u8,
    pub b: u8,
    pub a: u8,
}

impl Pixel {
    /// The defined fallback color for an empty window: opaque black.
    pub open spec fn opaque_black() -> Pixel {
        Pixel { r: 0, g: 0, b: 0, a: 255 }
    }

    /// Builds a pixel from its four channel values.
    pub fn new(r: u8, g: u8, b: u8, a: u8) -> (p: Pixel)
        ensures
            p == (Pixel { r, g, b, a }),
    {
        Pixel { r, g, b, a }
    }

    /// Channel `c` of this pixel, counted red, green, blue, alpha.
    pub open spec fn channel(self, c: int) -> u8 {
        if c == 0 {
            self.r
        } else if c == 1 {
            self.g
        } else if c == 2 {
            self.b
        } else {
            self.a
        }
    }
}

} // verus!
