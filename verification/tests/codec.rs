use color_codec::color::{Color, DecodeError, NamedColor};

#[test]
fn encode_named_red() {
    let c = Color::Named(NamedColor::Red);
    assert_eq!(c.encode(), [0, 0, 0, 0, 0]);
    assert_eq!(Color::decode(&[0, 0, 0, 0, 0]), Ok(c));
}

#[test]
fn encode_rgb() {
    let c = Color::Rgb { r: 10, g: 20, b: 30 };
    assert_eq!(c.encode(), [1, 10, 20, 30, 0]);
    assert_eq!(Color::decode(&c.encode()), Ok(c));
}

#[test]
fn encode_cymk() {
    let c = Color::Cymk { c: 1, y: 2, m: 3, k: 4 };
    assert_eq!(c.encode(), [2, 1, 2, 3, 4]);
    assert_eq!(Color::decode(&c.encode()), Ok(c));
}

#[test]
fn named_codec_all_bytes() {
    assert_eq!(NamedColor::Red.encode(), 0);
    assert_eq!(NamedColor::Green.encode(), 1);
    assert_eq!(NamedColor::Blue.encode(), 2);
    for code in 0u8..=255 {
        let decoded = NamedColor::decode(&code);
        match code {
            0 => assert_eq!(decoded, Ok(NamedColor::Red)),
            1 => assert_eq!(decoded, Ok(NamedColor::Green)),
            2 => assert_eq!(decoded, Ok(NamedColor::Blue)),
            _ => assert_eq!(decoded, Err(DecodeError::UnknownDiscriminant)),
        }
        if let Ok(nc) = decoded {
            assert_eq!(nc.encode(), code);
        }
    }
}

#[test]
fn color_roundtrip() {
    let mut values = vec![
        Color::Named(NamedColor::Red),
        Color::Named(NamedColor::Green),
        Color::Named(NamedColor::Blue),
        Color::Rgb { r: 0, g: 0, b: 0 },
        Color::Rgb { r: 255, g: 255, b: 255 },
        Color::Rgb { r: 10, g: 20, b: 30 },
        Color::Cymk { c: 0, y: 0, m: 0, k: 0 },
        Color::Cymk { c: 255, y: 255, m: 255, k: 255 },
        Color::Cymk { c: 1, y: 2, m: 3, k: 4 },
    ];
    for v in 0u8..=255 {
        values.push(Color::Rgb { r: v, g: v.wrapping_add(1), b: v.wrapping_mul(3) });
        values.push(Color::Cymk { c: v, y: 255 - v, m: v / 2, k: v.wrapping_mul(7) });
    }
    for c in values {
        let encoded = c.encode();
        assert_eq!(encoded.len(), 5);
        assert_eq!(Color::decode(&encoded), Ok(c));
    }
}

#[test]
fn color_deserialize() {
    // Whatever decodes successfully re-encodes to its own input bytes.
    let mut inputs: Vec<Vec<u8>> = vec![
        vec![],
        vec![0],
        vec![1, 2],
        vec![2, 1, 2],
        vec![1, 0, 0, 0],
        vec![0, 0, 0, 0, 0],
        vec![0, 2, 0, 0, 0],
        vec![1, 9, 8, 7, 0],
        vec![2, 1, 2, 3, 4],
        vec![0, 0, 0, 0, 5],
        vec![1, 1, 2, 3, 4],
        vec![9, 1, 2, 3, 4],
        vec![2, 1, 2, 3, 4, 5],
    ];
    for d in 0u8..=255 {
        inputs.push(vec![d, 7, 0, 200, 0]);
        inputs.push(vec![d, 1, 2, 3, 4]);
    }
    for code in inputs {
        if let Ok(c) = Color::decode(&code) {
            assert_eq!(c.encode().to_vec(), code);
        }
    }
}

#[test]
fn wrong_length_rejected() {
    assert_eq!(Color::decode(&[1, 0, 0, 0]), Err(DecodeError::WrongLength));
    assert_eq!(Color::decode(&[]), Err(DecodeError::WrongLength));
    assert_eq!(Color::decode(&[2, 1, 2, 3, 4, 0]), Err(DecodeError::WrongLength));
}

#[test]
fn unknown_discriminant_rejected() {
    assert_eq!(Color::decode(&[3, 0, 0, 0, 0]), Err(DecodeError::UnknownDiscriminant));
    for d in 3u8..=255 {
        assert_eq!(Color::decode(&[d, 0, 0, 0, 0]), Err(DecodeError::UnknownDiscriminant));
        assert_eq!(Color::decode(&[d, 255, 1, 2, 3]), Err(DecodeError::UnknownDiscriminant));
    }
}

#[test]
fn malformed_padding_rejected() {
    assert_eq!(Color::decode(&[0, 0, 0, 0, 5]), Err(DecodeError::MalformedPadding));
    assert_eq!(Color::decode(&[0, 1, 4, 0, 0]), Err(DecodeError::MalformedPadding));
    assert_eq!(Color::decode(&[0, 2, 0, 9, 0]), Err(DecodeError::MalformedPadding));
    assert_eq!(Color::decode(&[1, 10, 20, 30, 1]), Err(DecodeError::MalformedPadding));
}

#[test]
fn invalid_named_color_rejected() {
    assert_eq!(Color::decode(&[0, 3, 0, 0, 0]), Err(DecodeError::InvalidNamedColor));
    assert_eq!(Color::decode(&[0, 255, 0, 0, 0]), Err(DecodeError::InvalidNamedColor));
}
