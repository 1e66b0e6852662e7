//! Wire codec for sensor readings.
//!
//! A reading is a tagged union; its encoding is one tag byte followed by the
//! variant's fixed-width payload, so a decoder needs no schema beyond this
//! definition. Temperatures carry a 32-bit IEEE-754 value as its raw bit
//! pattern, serialized little-endian so payloads are portable across
//! architectures. The encoding is deterministic and minimal-length; `decode`
//! is its exact inverse and rejects truncated, mistagged, or overlong input
//! without ever panicking.

use vstd::prelude::*;

verus! {

/// Tag byte marking a temperature reading on the wire.
pub const TAG_TEMPERATURE: u8 = 0;

/// Number of bytes an encoded temperature reading occupies: tag + payload.
pub const TEMPERATURE_ENCODING_LEN: usize = 5;

/// Hard upper bound on a datagram payload carried by the transport.
pub const MAX_DATAGRAM_LEN: usize = 1500;

/// One sensor measurement, tagged by kind. The temperature payload is the
/// raw bit pattern of a 32-bit IEEE-754 value; callers that want the number
/// itself convert at the boundary, outside the verified core.
#[derive(Clone, Copy, Debug, PartialEq, Eq, Structural)]
pub enum DataType {
    Temperature(u32),
}

/// A single reading as carried by one datagram.
#[derive(Clone, Copy, Debug, PartialEq, Eq, Structural)]
pub struct DataReading {
    pub value: DataType,
}

impl DataReading {
    pub fn new(data: DataType) -> (r: Self)
        ensures
            r == (DataReading { value: data }),
    {
        Self { value: data }
    }
}

/// Why a byte sequence failed to decode as a reading.
#[derive(Clone, Copy, Debug, PartialEq, Eq, Structural)]
pub enum DecodeError {
    /// Input ends before the encoding is complete.
    Truncated,
    /// The tag byte names no known reading kind.
    UnknownTag,
    /// Valid encoding followed by extra bytes.
    TrailingBytes,
}

/// The text `DecodeError::describe` returns for each failure.
pub open spec fn spec_describe(e: DecodeError) -> Seq<char> {
    match e {
        DecodeError::Truncated => "truncated datagram"@,
        DecodeError::UnknownTag => "unknown reading tag"@,
        DecodeError::TrailingBytes => "trailing bytes after reading"@,
    }
}

impl DecodeError {
    /// A short human-readable account of the failure, fit for a log line.
    pub fn describe(&self) -> (s: &'static str)
        ensures
            s@ == spec_describe(*self),
    {
        match self {
            DecodeError::Truncated => "truncated datagram",
            DecodeError::UnknownTag => "unknown reading tag",
            DecodeError::TrailingBytes => "trailing bytes after reading",
        }
    }
}

/// The four bytes of `x` in little-endian order.
pub open spec fn u32_le_bytes(x: u32) -> Seq<u8> {
    seq![
        (x & 0xff) as u8,
        ((x >> 8) & 0xff) as u8,
        ((x >> 16) & 0xff) as u8,
        ((x >> 24) & 0xff) as u8,
    ]
}

/// The `u32` whose little-endian bytes are `b0 b1 b2 b3`.
pub open spec fn u32_from_le_bytes(b0: u8, b1: u8, b2: u8, b3: u8) -> u32 {
    (b0 as u32) | ((b1 as u32) << 8) | ((b2 as u32) << 16) | ((b3 as u32) << 24)
}

/// The unique byte encoding of a reading.
pub open spec fn encoding(r: DataReading) -> Seq<u8> {
    match r.value {
        DataType::Temperature(bits) => seq![TAG_TEMPERATURE] + u32_le_bytes(bits),
    }
}

/// Total decoding function: the result `decode` is proved to return on
/// every input, valid or not.
pub open spec fn spec_decode(b: Seq<u8>) -> Result<DataReading, DecodeError> {
    if b.len() == 0 {
        Err(DecodeError::Truncated)
    } else if b[0] != TAG_TEMPERATURE {
        Err(DecodeError::UnknownTag)
    } else if b.len() < TEMPERATURE_ENCODING_LEN {
        Err(DecodeError::Truncated)
    } else if b.len() > TEMPERATURE_ENCODING_LEN {
        Err(DecodeError::TrailingBytes)
    } else {
        Ok(DataReading { value: DataType::Temperature(u32_from_le_bytes(b[1], b[2], b[3], b[4])) })
    }
}

/// Serialize one reading. The result always fits in a single datagram.
pub fn encode(r: &DataReading) -> (out: Vec<u8>)
    ensures
        out@ == encoding(*r),
        out@.len() <= MAX_DATAGRAM_LEN,
{
    match r.value {
        DataType::Temperature(bits) => {
            let mut out: Vec<u8> = Vec::new();
            out.push(TAG_TEMPERATURE);
            out.push((bits & 0xff) as u8);
            out.push(((bits >> 8) & 0xff) as u8);
            out.push(((bits >> 16) & 0xff) as u8);
            out.push(((bits >> 24) & 0xff) as u8);
            proof {
                assert(out@ =~= encoding(*r));
            }
            out
        },
    }
}

/// Deserialize one datagram payload. Never panics: every input yields
/// either a reading or a `DecodeError`, exactly as `spec_decode` says.
pub fn decode(bytes: &[u8]) -> (res: Result<DataReading, DecodeError>)
    ensures
        res == spec_decode(bytes@),
{
    if bytes.len() == 0 {
        return Err(DecodeError::Truncated);
    }
    if bytes[0] != TAG_TEMPERATURE {
        return Err(DecodeError::UnknownTag);
    }
    if bytes.len() < TEMPERATURE_ENCODING_LEN {
        return Err(DecodeError::Truncated);
    }
    if bytes.len() > TEMPERATURE_ENCODING_LEN {
        return Err(DecodeError::TrailingBytes);
    }
    let bits = (bytes[1] as u32) | ((bytes[2] as u32) << 8) | ((bytes[3] as u32) << 16) | (
    (bytes[4] as u32) << 24);
    Ok(DataReading { value: DataType::Temperature(bits) })
}

proof fn lemma_u32_le_recompose(x: u32)
    ensures
        u32_from_le_bytes(
            (x & 0xff) as u8,
            ((x >> 8) & 0xff) as u8,
            ((x >> 16) & 0xff) as u8,
            ((x >> 24) & 0xff) as u8,
        ) == x,
{
    assert(((x & 0xff) as u8 as u32) | ((((x >> 8) & 0xff) as u8 as u32) << 8) | ((((x >> 16)
        & 0xff) as u8 as u32) << 16) | ((((x >> 24) & 0xff) as u8 as u32) << 24) == x)
        by (bit_vector);
}

proof fn lemma_u32_le_decompose(b0: u8, b1: u8, b2: u8, b3: u8)
    ensures
        u32_le_bytes(u32_from_le_bytes(b0, b1, b2, b3)) =~= seq![b0, b1, b2, b3],
{
    let x = u32_from_le_bytes(b0, b1, b2, b3);
    assert((((b0 as u32) | ((b1 as u32) << 8) | ((b2 as u32) << 16) | ((b3 as u32) << 24)) & 0xff)
        as u8 == b0) by (bit_vector);
    assert(((((b0 as u32) | ((b1 as u32) << 8) | ((b2 as u32) << 16) | ((b3 as u32) << 24)) >> 8)
        & 0xff) as u8 == b1) by (bit_vector);
    assert(((((b0 as u32) | ((b1 as u32) << 8) | ((b2 as u32) << 16) | ((b3 as u32) << 24)) >> 16)
        & 0xff) as u8 == b2) by (bit_vector);
    assert(((((b0 as u32) | ((b1 as u32) << 8) | ((b2 as u32) << 16) | ((b3 as u32) << 24)) >> 24)
        & 0xff) as u8 == b3) by (bit_vector);
}

/// Law (round trip): decoding an encoding gives back exactly the reading
/// that was encoded, for every reading.
pub proof fn lemma_round_trip(r: DataReading)
    ensures
        spec_decode(encoding(r)) == Ok::<DataReading, DecodeError>(r),
{
    match r.value {
        DataType::Temperature(bits) => {
            let b = encoding(r);
            assert(b.len() == TEMPERATURE_ENCODING_LEN);
            assert(b[0] == TAG_TEMPERATURE);
            lemma_u32_le_recompose(bits);
        },
    }
}

/// Law (decoding is exact): whenever decoding succeeds, re-encoding the
/// result reproduces the input bytes; no two readings share an encoding and
/// nothing outside the format is ever accepted.
pub proof fn lemma_decode_exact(b: Seq<u8>)
    ensures
        spec_decode(b) is Ok ==> encoding(spec_decode(b)->Ok_0) == b,
{
    if spec_decode(b) is Ok {
        lemma_u32_le_decompose(b[1], b[2], b[3], b[4]);
        assert(encoding(spec_decode(b)->Ok_0) =~= b);
    }
}

/// Law (success characterized): decoding succeeds exactly on the encodings
/// of readings; every other byte sequence draws a `DecodeError`.
pub proof fn lemma_decode_ok_iff(b: Seq<u8>)
    ensures
        (spec_decode(b) is Ok) <==> (exists|r: DataReading| encoding(r) == b),
{
    if spec_decode(b) is Ok {
        lemma_decode_exact(b);
        assert(encoding(spec_decode(b)->Ok_0) == b);
    }
    if exists|r: DataReading| encoding(r) == b {
        let r = choose|r: DataReading| encoding(r) == b;
        lemma_round_trip(r);
    }
}

/// Law (truncation safety): no strict prefix of a valid encoding decodes;
/// every one fails with a `DecodeError` rather than a bogus reading.
pub proof fn lemma_truncation_rejected(r: DataReading, k: int)
    requires
        0 <= k < encoding(r).len(),
    ensures
        spec_decode(encoding(r).subrange(0, k)) is Err,
{
    match r.value {
        DataType::Temperature(bits) => {
            let b = encoding(r).subrange(0, k);
            assert(b.len() < TEMPERATURE_ENCODING_LEN);
        },
    }
}

} // verus!
