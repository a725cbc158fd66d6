use vstd::prelude::*;

verus! {

/// What a shape is filled with: an RGB triple, or a fully saturated hue in
/// degrees (`0..360`) at half lightness.
#[derive(Clone, Copy, Debug, PartialEq, Eq, Structural)]
pub enum Colour {
    Rgb { r: u8, g: u8, b: u8 },
    Hue { degrees: u32 },
}

/// Number of colours in the burst palette.
pub const PALETTE_SIZE: usize = 6;

pub open spec fn palette_spec(i: int) -> Colour {
    if i == 0 {
        Colour::Rgb { r: 255, g: 64, b: 64 }
    } else if i == 1 {
        Colour::Rgb { r: 64, g: 255, b: 96 }
    } else if i == 2 {
        Colour::Rgb { r: 80, g: 140, b: 255 }
    } else if i == 3 {
        Colour::Rgb { r: 255, g: 230, b: 60 }
    } else if i == 4 {
        Colour::Rgb { r: 220, g: 90, b: 255 }
    } else {
        Colour::Rgb { r: 255, g: 255, b: 255 }
    }
}

/// The `i`-th colour of the burst palette.
pub fn palette(i: usize) -> (c: Colour)
    requires
        i < PALETTE_SIZE,
    ensures
        c == palette_spec(i as int),
{
    match i {
        0 => Colour::Rgb { r: 255, g: 64, b: 64 },
        1 => Colour::Rgb { r: 64, g: 255, b: 96 },
        2 => Colour::Rgb { r: 80, g: 140, b: 255 },
        3 => Colour::Rgb { r: 255, g: 230, b: 60 },
        4 => Colour::Rgb { r: 220, g: 90, b: 255 },
        _ => Colour::Rgb { r: 255, g: 255, b: 255 },
    }
}

/// Whether `c` is one of the palette's colours.
pub open spec fn in_palette(c: Colour) -> bool {
    exists|i: int| 0 <= i < PALETTE_SIZE && c == palette_spec(i)
}

/// The colour of an ascending rocket.
pub fn orange() -> (c: Colour)
    ensures
        c == (Colour::Rgb { r: 255, g: 165, b: 0 }),
{
    Colour::Rgb { r: 255, g: 165, b: 0 }
}

/// The colour of a background star.
pub fn yellow() -> (c: Colour)
    ensures
        c == (Colour::Rgb { r: 255, g: 255, b: 0 }),
{
    Colour::Rgb { r: 255, g: 255, b: 0 }
}

} // verus!
