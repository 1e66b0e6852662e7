use chlorophyll::codec::{decode, encode, DataReading, DataType, DecodeError};

fn temperature(value: f32) -> DataReading {
    DataReading::new(DataType::Temperature(value.to_bits()))
}

#[test]
fn round_trip_simple_reading() {
    let r = temperature(21.5);
    let bytes = encode(&r);
    assert_eq!(decode(&bytes), Ok(r));
}

#[test]
fn round_trip_edge_bit_patterns() {
    for bits in [0u32, 1, 0x7f80_0000, 0xff80_0000, u32::MAX, 0x0000_00ff, 0xff00_0000] {
        let r = DataReading::new(DataType::Temperature(bits));
        assert_eq!(decode(&encode(&r)), Ok(r));
    }
}

#[test]
fn encoding_is_tag_then_little_endian_payload() {
    // 21.5f32 has bit pattern 0x41AC0000.
    let bytes = encode(&temperature(21.5));
    assert_eq!(bytes, vec![0x00, 0x00, 0x00, 0xAC, 0x41]);
}

#[test]
fn payload_matches_postcard_f32_encoding() {
    // The payload bytes are exactly what postcard writes for an f32, so a
    // producer serializing with postcard interoperates with this decoder.
    let value = 21.5f32;
    let bytes = encode(&temperature(value));
    let payload = postcard::to_allocvec(&value).unwrap();
    assert_eq!(&bytes[1..], &payload[..]);
    assert_eq!(bytes[0], 0);
}

#[test]
fn every_truncation_fails() {
    let bytes = encode(&temperature(-4.25));
    for k in 0..bytes.len() {
        assert!(decode(&bytes[..k]).is_err(), "prefix of length {k} decoded");
    }
}

#[test]
fn empty_input_is_truncated() {
    assert_eq!(decode(&[]), Err(DecodeError::Truncated));
}

#[test]
fn short_input_is_truncated() {
    assert_eq!(decode(&[0x00, 0x01, 0x02, 0x03]), Err(DecodeError::Truncated));
}

#[test]
fn unknown_tag_is_rejected() {
    assert_eq!(
        decode(&[0x07, 0x00, 0x00, 0x00, 0x00]),
        Err(DecodeError::UnknownTag)
    );
}

#[test]
fn trailing_bytes_are_rejected() {
    assert_eq!(
        decode(&[0x00, 0x01, 0x02, 0x03, 0x04, 0x05]),
        Err(DecodeError::TrailingBytes)
    );
}

#[test]
fn arbitrary_garbage_never_panics() {
    // A crude pseudo-random walk over lengths and contents; decode must
    // return a Result on every input.
    let mut x: u32 = 0x1234_5678;
    for len in 0..64usize {
        let mut buf = Vec::with_capacity(len);
        for _ in 0..len {
            x = x.wrapping_mul(1_664_525).wrapping_add(1_013_904_223);
            buf.push((x >> 24) as u8);
        }
        let _ = decode(&buf);
    }
}

#[test]
fn describe_names_each_error() {
    assert_eq!(DecodeError::Truncated.describe(), "truncated datagram");
    assert_eq!(DecodeError::UnknownTag.describe(), "unknown reading tag");
    assert_eq!(
        DecodeError::TrailingBytes.describe(),
        "trailing bytes after reading"
    );
}
