//! Decoder for the 11-byte historical-log notification frames.
//!
//! A frame carries one tagged single-value measurement with its Unix
//! timestamp, or the end-of-measurements marker.  The marker is the frame
//! whose kind byte repeats the header byte `0x3A` and whose last eight
//! bytes are all `0xFF`.
//!
//! Timestamps are Unix seconds read as an unsigned big-endian 32-bit
//! value; every such value has a calendar mapping, so a frame that parses
//! structurally never fails on its timestamp.

use crate::err::{Error, Res};
use vstd::prelude::*;

verus! {

/// One decoded log notification: a measurement value with its
/// Unix-seconds timestamp, or the end-of-stream marker.
///
/// Values are exact scaled integers: centi-degrees Celsius for `Temp`,
/// hundredths of a percent for `Hum`, pascal for `AirPres`.
#[derive(Clone, Copy, Debug, PartialEq, Eq)]
pub enum Measurement {
    Temp(u32, i32),
    Hum(u32, u32),
    AirPres(u32, u32),
    EndOfMeasurements,
}

/// The unsigned big-endian 32-bit value at offset `i`.
pub open spec fn be32(s: Seq<u8>, i: int) -> int {
    s[i] * 0x1000000 + s[i + 1] * 0x10000 + s[i + 2] * 0x100 + s[i + 3]
}

/// The signed (two's complement) big-endian 32-bit value at offset `i`.
pub open spec fn sbe32(s: Seq<u8>, i: int) -> int {
    if be32(s, i) >= 0x80000000 {
        be32(s, i) - 0x100000000
    } else {
        be32(s, i)
    }
}

/// Whether bytes 3 to 10 of a frame are all `0xFF`, which marks the
/// end-of-measurements frame.
pub open spec fn spec_tail_all_ff(s: Seq<u8>) -> bool {
    s[3] == 0xFF && s[4] == 0xFF && s[5] == 0xFF && s[6] == 0xFF && s[7] == 0xFF && s[8] == 0xFF
        && s[9] == 0xFF && s[10] == 0xFF
}

/// What decoding one log notification frame yields, byte for byte:
/// the length, header and action checks, the end-of-measurements rule,
/// and the tagged value parse of [`Measurement::from_bytes`].
pub open spec fn spec_from_bytes(s: Seq<u8>) -> Result<Measurement, Error> {
    if s.len() != 11 {
        Err(Error::BadLength(s.len() as usize))
    } else if s[0] != 0x3A {
        Err(Error::BadHeader(s[0]))
    } else if s[2] != 0x10 {
        Err(Error::BadAction(s[2]))
    } else if s[1] == 0x3A && spec_tail_all_ff(s) {
        Ok(Measurement::EndOfMeasurements)
    } else if s[1] == 0x30 {
        Ok(Measurement::Temp(be32(s, 3) as u32, sbe32(s, 7) as i32))
    } else if s[1] == 0x31 {
        Ok(Measurement::Hum(be32(s, 3) as u32, be32(s, 7) as u32))
    } else if s[1] == 0x32 {
        Ok(Measurement::AirPres(be32(s, 3) as u32, be32(s, 7) as u32))
    } else {
        Err(Error::UnknownKind(s[1]))
    }
}

/// Reads the unsigned big-endian 32-bit value at `i`.
fn read_be32(s: &[u8], i: usize) -> (r: u32)
    requires
        i + 4 <= s@.len(),
    ensures
        r == be32(s@, i as int),
{
    (s[i] as u32) * 0x1000000 + (s[i + 1] as u32) * 0x10000 + (s[i + 2] as u32) * 0x100 + (s[i
        + 3] as u32)
}

impl Measurement {
    /// Decodes one 11-byte log notification frame; frames of any other
    /// length are not frames at all and yield `None`.
    pub fn from_11_bytes(v: &[u8]) -> (r: Option<Res<Measurement>>)
        ensures
            r == (if v@.len() != 11 {
                None::<Res<Measurement>>
            } else {
                Some(spec_from_bytes(v@))
            }),
    {
        if v.len() != 11 {
            None
        } else {
            Some(Measurement::from_bytes(v))
        }
    }

    /// Decodes one log notification frame: checks the length, header
    /// and action bytes, recognises the end-of-measurements marker, and
    /// parses the tagged value with its timestamp.
    pub fn from_bytes(obs: &[u8]) -> (r: Res<Measurement>)
        ensures
            r == spec_from_bytes(obs@),
    {
        if obs.len() != 11 {
            return Err(Error::BadLength(obs.len()));
        }
        if obs[0] != 0x3A {
            return Err(Error::BadHeader(obs[0]));
        }
        if obs[2] != 0x10 {
            return Err(Error::BadAction(obs[2]));
        }
        if obs[1] == 0x3A && obs[3] == 0xFF && obs[4] == 0xFF && obs[5] == 0xFF && obs[6] == 0xFF
            && obs[7] == 0xFF && obs[8] == 0xFF && obs[9] == 0xFF && obs[10] == 0xFF {
            return Ok(Measurement::EndOfMeasurements);
        }
        let ts = read_be32(obs, 3);
        let raw = read_be32(obs, 7);
        match obs[1] {
            0x30 => {
                let value: i32 = if raw >= 0x80000000 {
                    ((raw as i64) - 0x100000000) as i32
                } else {
                    raw as i32
                };
                Ok(Measurement::Temp(ts, value))
            },
            0x31 => Ok(Measurement::Hum(ts, raw)),
            0x32 => Ok(Measurement::AirPres(ts, raw)),
            _ => Err(Error::UnknownKind(obs[1])),
        }
    }
}

/// The big-endian byte encoding of an unsigned 32-bit value.
pub open spec fn spec_be32_bytes(u: int) -> Seq<u8> {
    seq![
        (u / 0x1000000) as u8,
        ((u / 0x10000) % 0x100) as u8,
        ((u / 0x100) % 0x100) as u8,
        (u % 0x100) as u8,
    ]
}

/// The wire encoding of an epoch-seconds value that fits in a signed
/// 32-bit integer: its two's complement representation, big-endian.
pub open spec fn spec_timestamp_bytes(ts: int) -> Seq<u8> {
    spec_be32_bytes(if ts < 0 {
        ts + 0x100000000
    } else {
        ts
    })
}

/// Reads the Unix-seconds timestamp carried by four big-endian bytes.
/// Every unsigned 32-bit seconds value has a calendar mapping, so this
/// cannot fail.
pub fn datetime_from_bytes(ts: [u8; 4]) -> (r: Res<u32>)
    ensures
        r == Ok::<u32, Error>(be32(ts@, 0) as u32),
{
    Ok(read_be32(ts.as_slice(), 0))
}

/// Encodes an epoch-seconds value into the four big-endian bytes of its
/// signed 32-bit representation, or fails with an overflow error for
/// values outside that range (dates beyond 2038, or before 1902).
pub fn datetime_to_bytes(ts: i64) -> (r: Res<[u8; 4]>)
    ensures
        (match r {
            Ok(b) => -0x80000000 <= ts <= 0x7FFFFFFF && b@ == spec_timestamp_bytes(ts as int),
            Err(e) => e == Error::TimestampOverflow(ts) && !(-0x80000000 <= ts <= 0x7FFFFFFF),
        }),
{
    if ts < -0x80000000 || ts > 0x7FFFFFFF {
        return Err(Error::TimestampOverflow(ts));
    }
    let u: u32 = if ts >= 0 {
        ts as u32
    } else {
        (ts + 0x100000000) as u32
    };
    let b: [u8; 4] = [
        (u / 0x1000000) as u8,
        ((u / 0x10000) % 0x100) as u8,
        ((u / 0x100) % 0x100) as u8,
        (u % 0x100) as u8,
    ];
    proof {
        assert(b@ =~= spec_timestamp_bytes(ts as int));
    }
    Ok(b)
}

/// Reading back the byte encoding of an unsigned 32-bit value yields
/// the value: the byte split loses nothing.
pub proof fn lemma_be32_bytes_round_trip(u: int)
    requires
        0 <= u < 0x100000000,
    ensures
        be32(spec_be32_bytes(u), 0) == u,
{
    vstd::arithmetic::div_mod::lemma_fundamental_div_mod(u, 0x100);
    vstd::arithmetic::div_mod::lemma_fundamental_div_mod(u / 0x100, 0x100);
    vstd::arithmetic::div_mod::lemma_fundamental_div_mod(u / 0x10000, 0x100);
    vstd::arithmetic::div_mod::lemma_div_denominator(u, 0x100, 0x100);
    vstd::arithmetic::div_mod::lemma_div_denominator(u, 0x10000, 0x100);
}

/// A nonnegative epoch-seconds value that fits in a signed 32-bit
/// integer survives the trip through its wire bytes unchanged.
pub proof fn lemma_timestamp_bytes_round_trip(ts: int)
    requires
        0 <= ts <= 0x7FFFFFFF,
    ensures
        be32(spec_timestamp_bytes(ts), 0) == ts,
{
    lemma_be32_bytes_round_trip(ts);
}

} // verus!
