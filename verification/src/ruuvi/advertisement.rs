//! Decoder for the 24-byte live-advertisement payload (data format 5).
//!
//! The caller hands in the manufacturer-specific payload with its 2-byte
//! manufacturer-id prefix already stripped.  Decoding walks a cursor over
//! the buffer, consuming each field in order and failing fast: a buffer
//! that runs out mid-field fails with the field's name, and a field whose
//! raw bits equal its manufacturer-defined "sensor unavailable" sentinel
//! fails as invalid even though the bytes parsed cleanly.
//!
//! Fixed-point fields are returned as exact scaled integers:
//! milli-degrees Celsius, ten-thousandths of a percent, pascal,
//! milli-g, millivolt, and dBm.

use crate::err::{Error, Field, Res};
use vstd::prelude::*;

verus! {

/// One decoded live reading.
///
/// * `temperature` — milli-degrees Celsius (raw resolution 5 m°C).
/// * `humidity` — ten-thousandths of a percent (raw resolution 25).
/// * `air_pressure` — pascal.
/// * `acceleration` — milli-g per axis.
/// * `voltage` — millivolt.
/// * `tx_power` — dBm (even values between -40 and 20).
/// * `movement` — movement counter, 0 to 254.
/// * `measurement` — measurement sequence counter, 0 to 65534.
/// * `mac` — the 6-byte hardware identifier, taken verbatim.
#[derive(Clone, Copy, Debug, PartialEq, Eq)]
pub struct Advertisement {
    pub temperature: i32,
    pub humidity: u32,
    pub air_pressure: u32,
    pub acceleration: [i32; 3],
    pub voltage: u16,
    pub tx_power: i8,
    pub movement: u8,
    pub measurement: u16,
    pub mac: [u8; 6],
}

/// The mathematical content of an [`Advertisement`]: every field as an
/// unbounded integer, and the hardware identifier as a byte sequence.
#[verifier::ext_equal]
pub struct AdvView {
    pub temperature: int,
    pub humidity: int,
    pub air_pressure: int,
    pub acc_x: int,
    pub acc_y: int,
    pub acc_z: int,
    pub voltage: int,
    pub tx_power: int,
    pub movement: int,
    pub measurement: int,
    pub mac: Seq<u8>,
}

impl View for Advertisement {
    type V = AdvView;

    open spec fn view(&self) -> AdvView {
        AdvView {
            temperature: self.temperature as int,
            humidity: self.humidity as int,
            air_pressure: self.air_pressure as int,
            acc_x: self.acceleration@[0] as int,
            acc_y: self.acceleration@[1] as int,
            acc_z: self.acceleration@[2] as int,
            voltage: self.voltage as int,
            tx_power: self.tx_power as int,
            movement: self.movement as int,
            measurement: self.measurement as int,
            mac: self.mac@,
        }
    }
}

/// The unsigned big-endian 16-bit value at offset `i`.
pub open spec fn be16(s: Seq<u8>, i: int) -> int {
    s[i] * 256 + s[i + 1]
}

/// The signed (two's complement) big-endian 16-bit value at offset `i`.
pub open spec fn sbe16(s: Seq<u8>, i: int) -> int {
    if be16(s, i) >= 0x8000 {
        be16(s, i) - 0x10000
    } else {
        be16(s, i)
    }
}

/// What decoding a raw data-format-5 buffer yields: the strict sequential
/// field walk of [`Advertisement::from_rawv5`], byte for byte.
///
/// Bytes past the 24 consumed ones are ignored.
pub open spec fn spec_from_rawv5(s: Seq<u8>) -> Result<AdvView, Error> {
    if s.len() < 1 {
        Err(Error::MissingField(Field::Version))
    } else if s[0] != 5 {
        Err(Error::InvalidVersion(s[0]))
    } else if s.len() < 3 {
        Err(Error::MissingField(Field::Temperature))
    } else if be16(s, 1) == 0x8000 {
        Err(Error::InvalidField(Field::Temperature))
    } else if s.len() < 5 {
        Err(Error::MissingField(Field::Humidity))
    } else if be16(s, 3) == 0xFFFF {
        Err(Error::InvalidField(Field::Humidity))
    } else if s.len() < 7 {
        Err(Error::MissingField(Field::AirPressure))
    } else if be16(s, 5) == 0xFFFF {
        Err(Error::InvalidField(Field::AirPressure))
    } else if s.len() < 9 {
        Err(Error::MissingField(Field::Acceleration))
    } else if be16(s, 7) == 0x8000 {
        Err(Error::InvalidField(Field::Acceleration))
    } else if s.len() < 11 {
        Err(Error::MissingField(Field::Acceleration))
    } else if be16(s, 9) == 0x8000 {
        Err(Error::InvalidField(Field::Acceleration))
    } else if s.len() < 13 {
        Err(Error::MissingField(Field::Acceleration))
    } else if be16(s, 11) == 0x8000 {
        Err(Error::InvalidField(Field::Acceleration))
    } else if s.len() < 15 {
        Err(Error::MissingField(Field::Power))
    } else if be16(s, 13) / 32 == 2047 {
        Err(Error::InvalidVoltage)
    } else if be16(s, 13) % 32 == 31 {
        Err(Error::InvalidTxPower)
    } else if s.len() < 16 {
        Err(Error::MissingField(Field::Movement))
    } else if s[15] == 0xFF {
        Err(Error::InvalidField(Field::Movement))
    } else if s.len() < 18 {
        Err(Error::MissingField(Field::MeasurementSeq))
    } else if be16(s, 16) == 0xFFFF {
        Err(Error::InvalidField(Field::MeasurementSeq))
    } else if s.len() < 24 {
        Err(Error::MissingField(Field::Mac))
    } else {
        Ok(AdvView {
            temperature: sbe16(s, 1) * 5,
            humidity: be16(s, 3) * 25,
            air_pressure: 50000 + be16(s, 5),
            acc_x: sbe16(s, 7),
            acc_y: sbe16(s, 9),
            acc_z: sbe16(s, 11),
            voltage: be16(s, 13) / 32 + 1600,
            tx_power: (be16(s, 13) % 32) * 2 - 40,
            movement: s[15] as int,
            measurement: be16(s, 16),
            mac: s.subrange(18, 24),
        })
    }
}

/// Reads the byte under the cursor and advances past it, or fails with
/// the name of the field whose data ran out.
fn next_u8(data: &[u8], pos: &mut usize, field: Field) -> (r: Res<u8>)
    requires
        *old(pos) <= data@.len(),
    ensures
        (match r {
            Ok(b) => *old(pos) < data@.len() && b == data@[*old(pos) as int] && *final(pos)
                == *old(pos) + 1,
            Err(e) => e == Error::MissingField(field) && *old(pos) == data@.len() && *final(pos)
                == *old(pos),
        }),
{
    if *pos < data.len() {
        let b = data[*pos];
        *pos = *pos + 1;
        Ok(b)
    } else {
        Err(Error::MissingField(field))
    }
}

/// Reads the unsigned big-endian 16-bit field under the cursor and
/// advances past it, or fails with the name of the field that ran out.
fn next_be16(data: &[u8], pos: &mut usize, field: Field) -> (r: Res<u16>)
    requires
        *old(pos) <= data@.len(),
    ensures
        (match r {
            Ok(v) => *old(pos) + 2 <= data@.len() && v == be16(data@, *old(pos) as int)
                && *final(pos) == *old(pos) + 2,
            Err(e) => e == Error::MissingField(field) && data@.len() < *old(pos) + 2 && *final(pos)
                == *old(pos),
        }),
{
    if data.len() - *pos < 2 {
        return Err(Error::MissingField(field));
    }
    let hi = data[*pos];
    let lo = data[*pos + 1];
    *pos = *pos + 2;
    Ok((hi as u16) * 256 + (lo as u16))
}

/// Decodes the version byte, which must equal 5.
fn version(data: &[u8], pos: &mut usize) -> (r: Res<u8>)
    requires
        *old(pos) <= data@.len(),
    ensures
        (match r {
            Ok(v) => v == 5 && *old(pos) < data@.len() && data@[*old(pos) as int] == 5
                && *final(pos) == *old(pos) + 1,
            Err(e) => (if *old(pos) == data@.len() {
                e == Error::MissingField(Field::Version) && *final(pos) == *old(pos)
            } else {
                e == Error::InvalidVersion(data@[*old(pos) as int]) && data@[*old(pos) as int] != 5
                    && *final(pos) == *old(pos) + 1
            }),
        }),
{
    let v = next_u8(data, pos, Field::Version)?;
    if v != 5 {
        return Err(Error::InvalidVersion(v));
    }
    Ok(v)
}

/// Decodes a signed 16-bit field with sentinel `0x8000`, scaled by
/// `scale`, into an `i32`.
fn signed_scaled(data: &[u8], pos: &mut usize, field: Field, scale: i32) -> (r: Res<i32>)
    requires
        *old(pos) <= data@.len(),
        1 <= scale <= 5,
    ensures
        (match r {
            Ok(v) => *old(pos) + 2 <= data@.len() && be16(data@, *old(pos) as int) != 0x8000 && v
                == sbe16(data@, *old(pos) as int) * scale && *final(pos) == *old(pos) + 2,
            Err(e) => (if data@.len() < *old(pos) + 2 {
                e == Error::MissingField(field) && *final(pos) == *old(pos)
            } else {
                e == Error::InvalidField(field) && be16(data@, *old(pos) as int) == 0x8000 && *final(pos) == *old(pos) + 2
            }),
        }),
{
    let u = next_be16(data, pos, field)?;
    if u == 0x8000 {
        return Err(Error::InvalidField(field));
    }
    let raw: i32 = if u >= 0x8000 {
        (u as i32) - 0x10000
    } else {
        u as i32
    };
    proof {
        assert(-163835 <= raw * scale <= 163835) by (nonlinear_arith)
            requires
                -32767 <= raw <= 32767,
                1 <= scale <= 5,
        ;
    }
    Ok(raw * scale)
}

/// Decodes the temperature field: sentinel `0x8000`, milli-degrees.
fn temp(data: &[u8], pos: &mut usize) -> (r: Res<i32>)
    requires
        *old(pos) <= data@.len(),
    ensures
        (match r {
            Ok(v) => *old(pos) + 2 <= data@.len() && be16(data@, *old(pos) as int) != 0x8000 && v
                == sbe16(data@, *old(pos) as int) * 5 && *final(pos) == *old(pos) + 2,
            Err(e) => (if data@.len() < *old(pos) + 2 {
                e == Error::MissingField(Field::Temperature) && *final(pos) == *old(pos)
            } else {
                e == Error::InvalidField(Field::Temperature) && be16(data@, *old(pos) as int)
                    == 0x8000 && *final(pos) == *old(pos) + 2
            }),
        }),
{
    signed_scaled(data, pos, Field::Temperature, 5)
}

/// Decodes the humidity field: sentinel `0xFFFF`, ten-thousandths of a
/// percent.
fn humidity(data: &[u8], pos: &mut usize) -> (r: Res<u32>)
    requires
        *old(pos) <= data@.len(),
    ensures
        (match r {
            Ok(v) => *old(pos) + 2 <= data@.len() && be16(data@, *old(pos) as int) != 0xFFFF && v
                == be16(data@, *old(pos) as int) * 25 && *final(pos) == *old(pos) + 2,
            Err(e) => (if data@.len() < *old(pos) + 2 {
                e == Error::MissingField(Field::Humidity) && *final(pos) == *old(pos)
            } else {
                e == Error::InvalidField(Field::Humidity) && be16(data@, *old(pos) as int)
                    == 0xFFFF && *final(pos) == *old(pos) + 2
            }),
        }),
{
    let u = next_be16(data, pos, Field::Humidity)?;
    if u == 0xFFFF {
        return Err(Error::InvalidField(Field::Humidity));
    }
    Ok((u as u32) * 25)
}

/// Decodes the air-pressure field: sentinel `0xFFFF`, pascal with a
/// fixed offset of 50000.
fn air_pressure(data: &[u8], pos: &mut usize) -> (r: Res<u32>)
    requires
        *old(pos) <= data@.len(),
    ensures
        (match r {
            Ok(v) => *old(pos) + 2 <= data@.len() && be16(data@, *old(pos) as int) != 0xFFFF && v
                == 50000 + be16(data@, *old(pos) as int) && *final(pos) == *old(pos) + 2,
            Err(e) => (if data@.len() < *old(pos) + 2 {
                e == Error::MissingField(Field::AirPressure) && *final(pos) == *old(pos)
            } else {
                e == Error::InvalidField(Field::AirPressure) && be16(data@, *old(pos) as int)
                    == 0xFFFF && *final(pos) == *old(pos) + 2
            }),
        }),
{
    let u = next_be16(data, pos, Field::AirPressure)?;
    if u == 0xFFFF {
        return Err(Error::InvalidField(Field::AirPressure));
    }
    Ok(50000 + (u as u32))
}

/// Decodes one acceleration axis: sentinel `0x8000`, milli-g.
fn acceleration_d(data: &[u8], pos: &mut usize) -> (r: Res<i32>)
    requires
        *old(pos) <= data@.len(),
    ensures
        (match r {
            Ok(v) => *old(pos) + 2 <= data@.len() && be16(data@, *old(pos) as int) != 0x8000 && v
                == sbe16(data@, *old(pos) as int) && *final(pos) == *old(pos) + 2,
            Err(e) => (if data@.len() < *old(pos) + 2 {
                e == Error::MissingField(Field::Acceleration) && *final(pos) == *old(pos)
            } else {
                e == Error::InvalidField(Field::Acceleration) && be16(data@, *old(pos) as int)
                    == 0x8000 && *final(pos) == *old(pos) + 2
            }),
        }),
{
    signed_scaled(data, pos, Field::Acceleration, 1)
}

/// Decodes the power word: an 11-bit voltage (sentinel 2047, millivolt
/// after a fixed offset of 1600) and a 5-bit transmission power
/// (sentinel 31, dBm as `raw * 2 - 40`), both from one 16-bit field and
/// validated independently.
fn ele(data: &[u8], pos: &mut usize) -> (r: Res<(u16, i8)>)
    requires
        *old(pos) <= data@.len(),
    ensures
        (match r {
            Ok(v) => *old(pos) + 2 <= data@.len() && be16(data@, *old(pos) as int) / 32 != 2047
                && be16(data@, *old(pos) as int) % 32 != 31 && v.0 == be16(
                data@,
                *old(pos) as int,
            ) / 32 + 1600 && v.1 == (be16(data@, *old(pos) as int) % 32) * 2 - 40 && *final(pos)
                == *old(pos) + 2,
            Err(e) => (if data@.len() < *old(pos) + 2 {
                e == Error::MissingField(Field::Power) && *final(pos) == *old(pos)
            } else if be16(data@, *old(pos) as int) / 32 == 2047 {
                e == Error::InvalidVoltage && *final(pos) == *old(pos) + 2
            } else {
                e == Error::InvalidTxPower && be16(data@, *old(pos) as int) % 32 == 31
                    && *final(pos) == *old(pos) + 2
            }),
        }),
{
    let w = next_be16(data, pos, Field::Power)?;
    let voltage_raw = w / 32;
    if voltage_raw == 2047 {
        return Err(Error::InvalidVoltage);
    }
    let tx_raw = w % 32;
    if tx_raw == 31 {
        return Err(Error::InvalidTxPower);
    }
    let voltage = voltage_raw + 1600;
    let tx_power = (tx_raw as i8) * 2 - 40;
    Ok((voltage, tx_power))
}

/// Decodes the movement counter: one byte, sentinel `0xFF`.
fn movement(data: &[u8], pos: &mut usize) -> (r: Res<u8>)
    requires
        *old(pos) <= data@.len(),
    ensures
        (match r {
            Ok(v) => *old(pos) < data@.len() && v == data@[*old(pos) as int] && v != 0xFF
                && *final(pos) == *old(pos) + 1,
            Err(e) => (if *old(pos) == data@.len() {
                e == Error::MissingField(Field::Movement) && *final(pos) == *old(pos)
            } else {
                e == Error::InvalidField(Field::Movement) && data@[*old(pos) as int] == 0xFF
                    && *final(pos) == *old(pos) + 1
            }),
        }),
{
    let b = next_u8(data, pos, Field::Movement)?;
    if b == 0xFF {
        return Err(Error::InvalidField(Field::Movement));
    }
    Ok(b)
}

/// Decodes the measurement sequence counter: sentinel `0xFFFF`.
fn measurement(data: &[u8], pos: &mut usize) -> (r: Res<u16>)
    requires
        *old(pos) <= data@.len(),
    ensures
        (match r {
            Ok(v) => *old(pos) + 2 <= data@.len() && v == be16(data@, *old(pos) as int) && v
                != 0xFFFF && *final(pos) == *old(pos) + 2,
            Err(e) => (if data@.len() < *old(pos) + 2 {
                e == Error::MissingField(Field::MeasurementSeq) && *final(pos) == *old(pos)
            } else {
                e == Error::InvalidField(Field::MeasurementSeq) && be16(data@, *old(pos) as int)
                    == 0xFFFF && *final(pos) == *old(pos) + 2
            }),
        }),
{
    let u = next_be16(data, pos, Field::MeasurementSeq)?;
    if u == 0xFFFF {
        return Err(Error::InvalidField(Field::MeasurementSeq));
    }
    Ok(u)
}

/// Reads the 6-byte hardware identifier verbatim: no sentinel check.
fn mac(data: &[u8], pos: &mut usize) -> (r: Res<[u8; 6]>)
    requires
        *old(pos) <= data@.len(),
    ensures
        (match r {
            Ok(m) => *old(pos) + 6 <= data@.len() && m@ == data@.subrange(
                *old(pos) as int,
                *old(pos) + 6,
            ) && *final(pos) == *old(pos) + 6,
            Err(e) => e == Error::MissingField(Field::Mac) && data@.len() < *old(pos) + 6
                && *final(pos) == *old(pos),
        }),
{
    if data.len() - *pos < 6 {
        return Err(Error::MissingField(Field::Mac));
    }
    let m: [u8; 6] = [
        data[*pos],
        data[*pos + 1],
        data[*pos + 2],
        data[*pos + 3],
        data[*pos + 4],
        data[*pos + 5],
    ];
    proof {
        assert(m@ =~= data@.subrange(*pos as int, *pos + 6));
    }
    *pos = *pos + 6;
    Ok(m)
}


/// The unsigned 16-bit wire representation (two's complement) of a
/// signed 16-bit value.
pub open spec fn u16_rep(v: int) -> int {
    if v < 0 {
        v + 0x10000
    } else {
        v
    }
}

/// The high byte of an unsigned 16-bit value.
pub open spec fn hi8(v: int) -> u8 {
    (v / 256) as u8
}

/// The low byte of an unsigned 16-bit value.
pub open spec fn lo8(v: int) -> u8 {
    (v % 256) as u8
}

/// Whether a reading can be carried by the wire format at all: each
/// field lies in its representable range, on its fixed-point grid, and
/// off its sentinel bit pattern.
pub open spec fn spec_encodable(a: AdvView) -> bool {
    &&& a.temperature % 5 == 0 && -163835 <= a.temperature <= 163835
    &&& a.humidity % 25 == 0 && 0 <= a.humidity <= 1638350
    &&& 50000 <= a.air_pressure <= 115534
    &&& -32767 <= a.acc_x <= 32767
    &&& -32767 <= a.acc_y <= 32767
    &&& -32767 <= a.acc_z <= 32767
    &&& 1600 <= a.voltage <= 3646
    &&& (a.tx_power + 40) % 2 == 0 && -40 <= a.tx_power <= 20
    &&& 0 <= a.movement <= 254
    &&& 0 <= a.measurement <= 65534
    &&& a.mac.len() == 6
}

/// The 24-byte wire encoding of a reading, field by field in the
/// documented layout.  Meaningful when `spec_encodable(a)` holds.
pub open spec fn spec_to_rawv5(a: AdvView) -> Seq<u8> {
    let tu = u16_rep(a.temperature / 5);
    let hu = a.humidity / 25;
    let pu = a.air_pressure - 50000;
    let xu = u16_rep(a.acc_x);
    let yu = u16_rep(a.acc_y);
    let zu = u16_rep(a.acc_z);
    let wu = (a.voltage - 1600) * 32 + (a.tx_power + 40) / 2;
    seq![
        5u8,
        hi8(tu),
        lo8(tu),
        hi8(hu),
        lo8(hu),
        hi8(pu),
        lo8(pu),
        hi8(xu),
        lo8(xu),
        hi8(yu),
        lo8(yu),
        hi8(zu),
        lo8(zu),
        hi8(wu),
        lo8(wu),
        a.movement as u8,
        hi8(a.measurement),
        lo8(a.measurement),
    ] + a.mac
}

/// Splitting an unsigned 16-bit value into its big-endian bytes and
/// reading them back yields the value.
proof fn lemma_be16_split(v: int)
    requires
        0 <= v <= 0xFFFF,
    ensures
        (hi8(v) as int) * 256 + (lo8(v) as int) == v,
        hi8(v) as int == v / 256,
        lo8(v) as int == v % 256,
{
    vstd::arithmetic::div_mod::lemma_fundamental_div_mod(v, 256);
}

/// Round trip of the wire format: any encodable reading decodes from
/// its own encoding unchanged.  Fixed-point rounding never enters:
/// encodable readings lie exactly on each field's resolution grid.
pub proof fn lemma_encode_decode(a: AdvView)
    requires
        spec_encodable(a),
    ensures
        spec_to_rawv5(a).len() == 24,
        spec_from_rawv5(spec_to_rawv5(a)) == Ok::<AdvView, Error>(a),
{
    let s = spec_to_rawv5(a);
    let tq = a.temperature / 5;
    let tu = u16_rep(tq);
    let hu = a.humidity / 25;
    let pu = a.air_pressure - 50000;
    let xu = u16_rep(a.acc_x);
    let yu = u16_rep(a.acc_y);
    let zu = u16_rep(a.acc_z);
    let vq = a.voltage - 1600;
    let tx2 = (a.tx_power + 40) / 2;
    let wu = vq * 32 + tx2;

    vstd::arithmetic::div_mod::lemma_fundamental_div_mod(a.temperature, 5);
    vstd::arithmetic::div_mod::lemma_fundamental_div_mod(a.humidity, 25);
    vstd::arithmetic::div_mod::lemma_fundamental_div_mod(a.tx_power + 40, 2);
    assert(a.temperature == 5 * tq);
    assert(a.humidity == 25 * hu);
    assert(a.tx_power + 40 == 2 * tx2);
    assert(-32767 <= tq <= 32767);
    assert(0 <= hu <= 65534);
    assert(0 <= tx2 <= 30);
    assert(0 <= vq <= 2046);
    assert(0 <= wu <= 65502);

    lemma_be16_split(tu);
    lemma_be16_split(hu);
    lemma_be16_split(pu);
    lemma_be16_split(xu);
    lemma_be16_split(yu);
    lemma_be16_split(zu);
    lemma_be16_split(wu);
    lemma_be16_split(a.measurement);

    assert(be16(s, 1) == tu);
    assert(be16(s, 3) == hu);
    assert(be16(s, 5) == pu);
    assert(be16(s, 7) == xu);
    assert(be16(s, 9) == yu);
    assert(be16(s, 11) == zu);
    assert(be16(s, 13) == wu);
    assert(be16(s, 16) == a.measurement);

    vstd::arithmetic::div_mod::lemma_fundamental_div_mod_converse(wu, 32, vq, tx2);
    assert(wu / 32 == vq && wu % 32 == tx2);

    assert(sbe16(s, 1) == tq);
    assert(sbe16(s, 7) == a.acc_x);
    assert(sbe16(s, 9) == a.acc_y);
    assert(sbe16(s, 11) == a.acc_z);

    assert(s.subrange(18, 24) =~= a.mac);
    assert(spec_from_rawv5(s) matches Ok(b) && b =~= a);
}


/// The converse round trip: a 24-byte buffer that decodes at all is the
/// encoding of what it decodes to — the wire form of a reading is
/// canonical, and decoding loses nothing.
pub proof fn lemma_decode_encode(s: Seq<u8>, v: AdvView)
    requires
        s.len() == 24,
        spec_from_rawv5(s) == Ok::<AdvView, Error>(v),
    ensures
        spec_encodable(v),
        spec_to_rawv5(v) == s,
{
    let tq = sbe16(s, 1);
    vstd::arithmetic::div_mod::lemma_fundamental_div_mod_converse(tq * 5, 5, tq, 0);
    vstd::arithmetic::div_mod::lemma_fundamental_div_mod_converse(
        be16(s, 3) * 25,
        25,
        be16(s, 3),
        0,
    );
    let w = be16(s, 13);
    vstd::arithmetic::div_mod::lemma_fundamental_div_mod(w, 32);
    vstd::arithmetic::div_mod::lemma_fundamental_div_mod_converse(
        (w % 32) * 2,
        2,
        w % 32,
        0,
    );
    assert(spec_encodable(v));

    vstd::arithmetic::div_mod::lemma_fundamental_div_mod_converse(be16(s, 1), 256, s[1] as int, s[2] as int);
    vstd::arithmetic::div_mod::lemma_fundamental_div_mod_converse(be16(s, 3), 256, s[3] as int, s[4] as int);
    vstd::arithmetic::div_mod::lemma_fundamental_div_mod_converse(be16(s, 5), 256, s[5] as int, s[6] as int);
    vstd::arithmetic::div_mod::lemma_fundamental_div_mod_converse(be16(s, 7), 256, s[7] as int, s[8] as int);
    vstd::arithmetic::div_mod::lemma_fundamental_div_mod_converse(be16(s, 9), 256, s[9] as int, s[10] as int);
    vstd::arithmetic::div_mod::lemma_fundamental_div_mod_converse(be16(s, 11), 256, s[11] as int, s[12] as int);
    vstd::arithmetic::div_mod::lemma_fundamental_div_mod_converse(be16(s, 13), 256, s[13] as int, s[14] as int);
    vstd::arithmetic::div_mod::lemma_fundamental_div_mod_converse(be16(s, 16), 256, s[16] as int, s[17] as int);

    assert(u16_rep(v.temperature / 5) == be16(s, 1));
    assert(v.humidity / 25 == be16(s, 3));
    assert(v.air_pressure - 50000 == be16(s, 5));
    assert(u16_rep(v.acc_x) == be16(s, 7));
    assert(u16_rep(v.acc_y) == be16(s, 9));
    assert(u16_rep(v.acc_z) == be16(s, 11));
    assert((v.voltage - 1600) * 32 + (v.tx_power + 40) / 2 == be16(s, 13));

    assert(spec_to_rawv5(v) =~= s);
}

/// The byte-level well-formedness of one named field of a 24-byte
/// buffer: its bytes do not equal its sentinel pattern (for the
/// version byte: it equals 5; the hardware identifier has no sentinel).
pub open spec fn spec_field_ok(s: Seq<u8>, f: Field) -> bool {
    match f {
        Field::Version => s[0] == 5,
        Field::Temperature => be16(s, 1) != 0x8000,
        Field::Humidity => be16(s, 3) != 0xFFFF,
        Field::AirPressure => be16(s, 5) != 0xFFFF,
        Field::Acceleration => be16(s, 7) != 0x8000 && be16(s, 9) != 0x8000 && be16(s, 11)
            != 0x8000,
        Field::Power => be16(s, 13) / 32 != 2047 && be16(s, 13) % 32 != 31,
        Field::Movement => s[15] != 0xFF,
        Field::MeasurementSeq => be16(s, 16) != 0xFFFF,
        Field::Mac => true,
    }
}

/// The error that a sentinel-valued field produces.
pub open spec fn spec_sentinel_error(s: Seq<u8>, f: Field) -> Error {
    match f {
        Field::Power => if be16(s, 13) / 32 == 2047 {
            Error::InvalidVoltage
        } else {
            Error::InvalidTxPower
        },
        _ => Error::InvalidField(f),
    }
}

/// Sentinel validation singles out the offending field: a 24-byte
/// buffer in which exactly one numeric field holds its sentinel
/// pattern, every other field being well-formed, fails to decode with
/// the error naming that field.
pub proof fn lemma_sentinel_names_field(s: Seq<u8>, f: Field)
    requires
        s.len() == 24,
        f != Field::Version,
        f != Field::Mac,
        !spec_field_ok(s, f),
        forall|g: Field| g != f ==> spec_field_ok(s, g),
    ensures
        spec_from_rawv5(s) == Err::<AdvView, Error>(spec_sentinel_error(s, f)),
{
    assert(spec_field_ok(s, Field::Version));
    assert(f == Field::Temperature || spec_field_ok(s, Field::Temperature));
    assert(f == Field::Humidity || spec_field_ok(s, Field::Humidity));
    assert(f == Field::AirPressure || spec_field_ok(s, Field::AirPressure));
    assert(f == Field::Acceleration || spec_field_ok(s, Field::Acceleration));
    assert(f == Field::Power || spec_field_ok(s, Field::Power));
    assert(f == Field::Movement || spec_field_ok(s, Field::Movement));
    assert(f == Field::MeasurementSeq || spec_field_ok(s, Field::MeasurementSeq));
}

/// Any buffer of at least one byte whose version byte is not 5 fails to
/// decode with an invalid-version error carrying that byte; in
/// particular every 24-byte buffer does.
pub proof fn lemma_version_mismatch(s: Seq<u8>)
    requires
        s.len() >= 1,
        s[0] != 5,
    ensures
        spec_from_rawv5(s) == Err::<AdvView, Error>(Error::InvalidVersion(s[0])),
{
}

impl Advertisement {
    /// Decodes a raw data-format-5 payload into an [`Advertisement`],
    /// walking the buffer field by field and failing fast on the first
    /// missing or sentinel-valued field.
    pub fn from_rawv5(data: &[u8]) -> (r: Res<Advertisement>)
        ensures
            (match r {
                Ok(a) => spec_from_rawv5(data@) == Ok::<AdvView, Error>(a@),
                Err(e) => spec_from_rawv5(data@) == Err::<AdvView, Error>(e),
            }),
    {
        let mut pos: usize = 0;
        let _version = version(data, &mut pos)?;
        let temperature = temp(data, &mut pos)?;
        let humidity = humidity(data, &mut pos)?;
        let air_pressure = air_pressure(data, &mut pos)?;
        let acc_x = acceleration_d(data, &mut pos)?;
        let acc_y = acceleration_d(data, &mut pos)?;
        let acc_z = acceleration_d(data, &mut pos)?;
        let (voltage, tx_power) = ele(data, &mut pos)?;
        let movement = movement(data, &mut pos)?;
        let measurement = measurement(data, &mut pos)?;
        let mac = mac(data, &mut pos)?;
        let adv = Advertisement {
            temperature,
            humidity,
            air_pressure,
            acceleration: [acc_x, acc_y, acc_z],
            voltage,
            tx_power,
            movement,
            measurement,
            mac,
        };
        proof {
            assert(spec_from_rawv5(data@) matches Ok(v) && v =~= adv@);
        }
        Ok(adv)
    }


    /// Encodes the reading back into its 24-byte wire form.  Only
    /// encodable readings — fields on their fixed-point grid, in range
    /// and off their sentinel patterns — have a wire form at all.
    pub fn to_rawv5(&self) -> (r: Vec<u8>)
        requires
            spec_encodable(self@),
        ensures
            r@ == spec_to_rawv5(self@),
    {
        let t = self.temperature;
        let tu: u16 = if t >= 0 {
            (t / 5) as u16
        } else {
            proof {
                vstd::arithmetic::div_mod::lemma_fundamental_div_mod(t as int, 5);
                assert(t as int == 5 * (t as int / 5));
                assert((0 - t) as int == ((0 - (t as int / 5)) * 5));
                vstd::arithmetic::div_mod::lemma_div_by_multiple(0 - (t as int / 5), 5);
            }
            (65536 - ((0 - t) / 5)) as u16
        };
        let hu: u16 = (self.humidity / 25) as u16;
        let pu: u16 = (self.air_pressure - 50000) as u16;
        let xu: u16 = Self::axis_word(self.acceleration[0]);
        let yu: u16 = Self::axis_word(self.acceleration[1]);
        let zu: u16 = Self::axis_word(self.acceleration[2]);
        let wu: u16 = (self.voltage - 1600) * 32 + (((self.tx_power as i32) + 40) / 2) as u16;
        let mut r: Vec<u8> = Vec::new();
        r.push(5u8);
        r.push((tu / 256) as u8);
        r.push((tu % 256) as u8);
        r.push((hu / 256) as u8);
        r.push((hu % 256) as u8);
        r.push((pu / 256) as u8);
        r.push((pu % 256) as u8);
        r.push((xu / 256) as u8);
        r.push((xu % 256) as u8);
        r.push((yu / 256) as u8);
        r.push((yu % 256) as u8);
        r.push((zu / 256) as u8);
        r.push((zu % 256) as u8);
        r.push((wu / 256) as u8);
        r.push((wu % 256) as u8);
        r.push(self.movement);
        r.push((self.measurement / 256) as u8);
        r.push((self.measurement % 256) as u8);
        r.push(self.mac[0]);
        r.push(self.mac[1]);
        r.push(self.mac[2]);
        r.push(self.mac[3]);
        r.push(self.mac[4]);
        r.push(self.mac[5]);
        proof {
            assert(r@ =~= spec_to_rawv5(self@));
        }
        r
    }

    /// The unsigned wire word of one acceleration axis.
    fn axis_word(v: i32) -> (r: u16)
        requires
            -32767 <= v <= 32767,
        ensures
            r == u16_rep(v as int),
    {
        if v >= 0 {
            v as u16
        } else {
            (65536 + v) as u16
        }
    }

    /// The hardware identifier of the device the reading came from.
    pub fn mac(&self) -> (r: [u8; 6])
        ensures
            r@ == self@.mac,
    {
        self.mac
    }
}

} // verus!
