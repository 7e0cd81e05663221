use vstd::prelude::*;
use crate::random::RandomSource;

verus! {

/// An opaque colour of three eight-bit channels.
#[derive(Clone, Copy, Debug, PartialEq, Eq, Structural)]
pub struct Color {
    pub r: u8,
    pub g: u8,
    pub b: u8,
}

/// The value halfway between two channel values, rounded down.
pub open spec fn mix_channel(a: u8, b: u8) -> u8 {
    ((a as int + b as int) / 2) as u8
}

/// The channel-wise midpoint of two colours.
pub open spec fn mix(c1: Color, c2: Color) -> Color {
    Color { r: mix_channel(c1.r, c2.r), g: mix_channel(c1.g, c2.g), b: mix_channel(c1.b, c2.b) }
}

impl Color {
    /// Black, the colour of a cell that nothing was written to.
    pub open spec fn black() -> Color {
        Color { r: 0, g: 0, b: 0 }
    }

    pub fn rgb(r: u8, g: u8, b: u8) -> (c: Color)
        ensures
            c == (Color { r, g, b }),
    {
        Color { r, g, b }
    }
}

fn mix_one(a: u8, b: u8) -> (m: u8)
    ensures
        m == mix_channel(a, b),
{
    if a >= b {
        (a - b) / 2 + b
    } else {
        (b - a) / 2 + a
    }
}

/// Blends two colours with equal weight, each channel on its own: the result
/// lies halfway between the two, rounded down.
pub fn mix_rgb(c1: Color, c2: Color) -> (c: Color)
    ensures
        c == mix(c1, c2),
{
    Color { r: mix_one(c1.r, c2.r), g: mix_one(c1.g, c2.g), b: mix_one(c1.b, c2.b) }
}

/// Draws a colour whose channels are each uniform over `0..255`.
pub fn generate_random_rgb(rng: &mut RandomSource) -> (c: Color)
    ensures
        c.r < 255,
        c.g < 255,
        c.b < 255,
{
    let r: u8 = rng.channel();
    let g: u8 = rng.channel();
    let b: u8 = rng.channel();
    Color { r, g, b }
}

} // verus!
