//! The colour codec: a closed three-way union encoded into exactly five
//! bytes — one discriminant byte followed by four payload slots, with
//! unused slots zero-filled.

use vstd::prelude::*;

verus! {

/// A closed enumeration of three named colours, each mapped bijectively
/// to a single-byte code in the range 0..=2.
#[derive(Debug, Clone, Copy, PartialEq, Eq, Structural)]
pub enum NamedColor {
    Red,
    Green,
    Blue,
}

/// The reason a byte sequence failed to decode.
#[derive(Debug, Clone, Copy, PartialEq, Eq, Structural)]
pub enum DecodeError {
    /// The input was not exactly five bytes long.
    WrongLength,
    /// The leading byte named no known variant.
    UnknownDiscriminant,
    /// A padding slot that the canonical encoding zero-fills was nonzero.
    MalformedPadding,
    /// The payload of a named colour was not a valid colour code.
    InvalidNamedColor,
}

/// The single-byte code of a named colour.
pub open spec fn named_code(nc: NamedColor) -> u8 {
    match nc {
        NamedColor::Red => 0,
        NamedColor::Green => 1,
        NamedColor::Blue => 2,
    }
}

/// The named colour a byte decodes to, when it is a valid code.
pub open spec fn named_decode_spec(code: u8) -> Result<NamedColor, DecodeError> {
    if code == 0 {
        Ok(NamedColor::Red)
    } else if code == 1 {
        Ok(NamedColor::Green)
    } else if code == 2 {
        Ok(NamedColor::Blue)
    } else {
        Err(DecodeError::UnknownDiscriminant)
    }
}

impl NamedColor {
    /// Encodes the colour as its single-byte code. Total: never fails.
    pub fn encode(&self) -> (r: u8)
        ensures
            r == named_code(*self),
    {
        match self {
            NamedColor::Red => 0,
            NamedColor::Green => 1,
            NamedColor::Blue => 2,
        }
    }

    /// Decodes a single-byte code: 0, 1 and 2 name a colour, every other
    /// byte is rejected.
    pub fn decode(code: &u8) -> (r: Result<NamedColor, DecodeError>)
        ensures
            r == named_decode_spec(*code),
    {
        match code {
            0 => Ok(NamedColor::Red),
            1 => Ok(NamedColor::Green),
            2 => Ok(NamedColor::Blue),
            _ => Err(DecodeError::UnknownDiscriminant),
        }
    }
}

/// A named-colour code decodes back to the colour it encodes.
pub proof fn lemma_named_round_trip(nc: NamedColor)
    ensures
        named_decode_spec(named_code(nc)) == Ok::<NamedColor, DecodeError>(nc),
{
}

/// A closed tagged union: a named colour, an RGB triple, or a CYMK
/// quadruple, each channel an unconstrained 8-bit value.
#[derive(Debug, Clone, Copy, PartialEq, Eq, Structural)]
pub enum Color {
    Named(NamedColor),
    Rgb { r: u8, g: u8, b: u8 },
    Cymk { c: u8, y: u8, m: u8, k: u8 },
}

/// The canonical five-byte encoding of a colour: the discriminant byte,
/// then four payload slots, unused slots zero-filled.
pub open spec fn encode_spec(color: Color) -> Seq<u8> {
    match color {
        Color::Named(nc) => seq![0u8, named_code(nc), 0u8, 0u8, 0u8],
        Color::Rgb { r, g, b } => seq![1u8, r, g, b, 0u8],
        Color::Cymk { c, y, m, k } => seq![2u8, c, y, m, k],
    }
}

/// The colour a byte sequence decodes to, or the one typed reason it is
/// rejected. Only five-byte inputs are accepted; discriminant 0 demands
/// zero padding in the last three slots and a valid colour code in the
/// second byte.
pub open spec fn decode_spec(bytes: Seq<u8>) -> Result<Color, DecodeError> {
    if bytes.len() != 5 {
        Err(DecodeError::WrongLength)
    } else if bytes[0] == 0 {
        if bytes[2] != 0 || bytes[3] != 0 || bytes[4] != 0 {
            Err(DecodeError::MalformedPadding)
        } else {
            match named_decode_spec(bytes[1]) {
                Ok(nc) => Ok(Color::Named(nc)),
                Err(_) => Err(DecodeError::InvalidNamedColor),
            }
        }
    } else if bytes[0] == 1 {
        if bytes[4] != 0 {
            Err(DecodeError::MalformedPadding)
        } else {
            Ok(Color::Rgb { r: bytes[1], g: bytes[2], b: bytes[3] })
        }
    } else if bytes[0] == 2 {
        Ok(Color::Cymk { c: bytes[1], y: bytes[2], m: bytes[3], k: bytes[4] })
    } else {
        Err(DecodeError::UnknownDiscriminant)
    }
}

impl Color {
    /// Encodes the colour into its canonical five-byte form. Total:
    /// never fails, and the result always has length exactly five.
    pub fn encode(&self) -> (r: [u8; 5])
        ensures
            r@ == encode_spec(*self),
            r@.len() == 5,
    {
        let bytes: [u8; 5] = match self {
            Color::Named(nc) => [0, nc.encode(), 0, 0, 0],
            Color::Rgb { r, g, b } => [1, *r, *g, *b, 0],
            Color::Cymk { c, y, m, k } => [2, *c, *y, *m, *k],
        };
        proof {
            assert(bytes@ =~= encode_spec(*self));
        }
        bytes
    }

    /// Decodes a byte sequence of any length: exactly the canonical
    /// five-byte forms and the non-padded Cymk forms are accepted, and
    /// every malformed input yields its one typed error.
    pub fn decode(code: &[u8]) -> (r: Result<Color, DecodeError>)
        ensures
            r == decode_spec(code@),
    {
        if code.len() != 5 {
            return Err(DecodeError::WrongLength);
        }
        let d = code[0];
        let p1 = code[1];
        let p2 = code[2];
        let p3 = code[3];
        let p4 = code[4];
        if d == 0 {
            if p2 != 0 || p3 != 0 || p4 != 0 {
                Err(DecodeError::MalformedPadding)
            } else {
                match NamedColor::decode(&p1) {
                    Ok(nc) => Ok(Color::Named(nc)),
                    Err(_) => Err(DecodeError::InvalidNamedColor),
                }
            }
        } else if d == 1 {
            if p4 != 0 {
                Err(DecodeError::MalformedPadding)
            } else {
                Ok(Color::Rgb { r: p1, g: p2, b: p3 })
            }
        } else if d == 2 {
            Ok(Color::Cymk { c: p1, y: p2, m: p3, k: p4 })
        } else {
            Err(DecodeError::UnknownDiscriminant)
        }
    }
}

/// Round-trip law: every colour decodes back from its own encoding,
/// exactly.
pub proof fn lemma_round_trip(color: Color)
    ensures
        decode_spec(encode_spec(color)) == Ok::<Color, DecodeError>(color),
{
}

/// Partial-inverse law: whatever byte sequence decodes successfully
/// re-encodes to exactly those bytes — decoding never invents a value
/// whose canonical form differs from its input.
pub proof fn lemma_partial_inverse(bytes: Seq<u8>, color: Color)
    requires
        decode_spec(bytes) == Ok::<Color, DecodeError>(color),
    ensures
        encode_spec(color) == bytes,
{
    assert(encode_spec(color) =~= bytes);
}

/// Length invariant: the encoding of every colour is exactly five bytes.
pub proof fn lemma_encode_length(color: Color)
    ensures
        encode_spec(color).len() == 5,
{
}

/// Discriminant coverage: on a five-byte input whose leading byte names
/// no variant, decoding fails with `UnknownDiscriminant`, whatever the
/// remaining four bytes hold.
pub proof fn lemma_unknown_discriminant(bytes: Seq<u8>)
    requires
        bytes.len() == 5,
        bytes[0] != 0 && bytes[0] != 1 && bytes[0] != 2,
    ensures
        decode_spec(bytes) == Err::<Color, DecodeError>(DecodeError::UnknownDiscriminant),
{
}

} // verus!
