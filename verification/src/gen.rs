//! Deterministic value generators: pure functions from a handful of
//! random bytes, drawn by the caller from whatever source it likes, to a
//! colour value. A variant is picked from the selector byte, uniformly
//! over the three variants, and its fields are filled from the payload
//! bytes; composite variants recurse into their field generators.

use vstd::prelude::*;
use crate::color::{named_code, Color, NamedColor};

verus! {

/// The named colour a selector byte generates: the selector's residue
/// modulo three picks the variant.
pub open spec fn named_from_bits_spec(sel: u8) -> NamedColor {
    if sel % 3 == 0 {
        NamedColor::Red
    } else if sel % 3 == 1 {
        NamedColor::Green
    } else {
        NamedColor::Blue
    }
}

/// The colour five bytes generate: the selector's residue modulo three
/// picks the variant, the payload bytes fill its fields in order.
pub open spec fn color_from_bits_spec(sel: u8, p1: u8, p2: u8, p3: u8, p4: u8) -> Color {
    if sel % 3 == 0 {
        Color::Named(named_from_bits_spec(p1))
    } else if sel % 3 == 1 {
        Color::Rgb { r: p1, g: p2, b: p3 }
    } else {
        Color::Cymk { c: p1, y: p2, m: p3, k: p4 }
    }
}

/// Generates a named colour from one byte of randomness, each variant
/// reached by a third of the byte's values.
pub fn named_color_from_bits(sel: u8) -> (r: NamedColor)
    ensures
        r == named_from_bits_spec(sel),
{
    match sel % 3 {
        0 => NamedColor::Red,
        1 => NamedColor::Green,
        _ => NamedColor::Blue,
    }
}

/// Generates a colour from five bytes of randomness: one byte selects
/// the variant, the rest fill its payload.
pub fn color_from_bits(sel: u8, p1: u8, p2: u8, p3: u8, p4: u8) -> (r: Color)
    ensures
        r == color_from_bits_spec(sel, p1, p2, p3, p4),
{
    match sel % 3 {
        0 => Color::Named(named_color_from_bits(p1)),
        1 => Color::Rgb { r: p1, g: p2, b: p3 },
        _ => Color::Cymk { c: p1, y: p2, m: p3, k: p4 },
    }
}

/// The generator covers the whole type: every colour value comes out of
/// some choice of input bytes.
pub proof fn lemma_generator_covers(color: Color)
    ensures
        exists|sel: u8, p1: u8, p2: u8, p3: u8, p4: u8|
            color_from_bits_spec(sel, p1, p2, p3, p4) == color,
{
    match color {
        Color::Named(nc) => {
            let p1: u8 = named_code(nc);
            assert(color_from_bits_spec(0u8, p1, 0u8, 0u8, 0u8) == color);
        },
        Color::Rgb { r, g, b } => {
            assert(color_from_bits_spec(1u8, r, g, b, 0u8) == color);
        },
        Color::Cymk { c, y, m, k } => {
            assert(color_from_bits_spec(2u8, c, y, m, k) == color);
        },
    }
}

} // verus!
