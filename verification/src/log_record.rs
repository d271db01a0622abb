//! An incremental, per-frame variant of the log path: a single-frame
//! parser whose end-of-measurements marker is any frame with bytes 3 to
//! 10 all `0xFF` (the kind byte is not consulted, unlike the stream
//! decoder in [`crate::ruuvi::measurement`] — the two observed frame
//! dialects disagree on that edge case, and each decoder documents its
//! own rule), and a reassembly state fed one measurement at a time.

use crate::err::{Error, MeasurementKind};
use crate::ruuvi::measurement::{be32, sbe32};
use vstd::prelude::*;

pub use crate::ruuvi::measurement::{datetime_from_bytes, datetime_to_bytes};

verus! {

/// One completed log entry: temperature (centi-degrees Celsius),
/// humidity (hundredths of a percent) and air pressure (pascal), all
/// measured at one shared Unix-seconds timestamp.
#[derive(Clone, Copy, Debug, PartialEq, Eq)]
pub struct LogRecord {
    pub datetime: u32,
    pub temperature: i32,
    pub humidity: u32,
    pub air_pressure: u32,
}

/// One single-value log measurement with its Unix-seconds timestamp:
/// centi-degrees Celsius, hundredths of a percent, or pascal.
#[derive(Clone, Copy, Debug, PartialEq, Eq)]
pub enum Measurement {
    Temperature(u32, i32),
    Humidity(u32, u32),
    AirPressure(u32, u32),
}

/// Whether bytes 3 to 10 of a frame are all `0xFF`: in this dialect,
/// the end-of-measurements marker, whatever the kind byte says.
pub open spec fn spec_tail_all_ff(s: Seq<u8>) -> bool {
    s[3] == 0xFF && s[4] == 0xFF && s[5] == 0xFF && s[6] == 0xFF && s[7] == 0xFF && s[8] == 0xFF
        && s[9] == 0xFF && s[10] == 0xFF
}

/// What decoding one log notification frame yields in this dialect:
/// `None` for the end-of-measurements marker, otherwise the tagged
/// measurement of [`Measurement::from_bytes`].
pub open spec fn spec_from_bytes(s: Seq<u8>) -> Result<Option<Measurement>, Error> {
    if s.len() != 11 {
        Err(Error::BadLength(s.len() as usize))
    } else if s[0] != 0x3A {
        Err(Error::BadHeader(s[0]))
    } else if s[2] != 0x10 {
        Err(Error::BadAction(s[2]))
    } else if spec_tail_all_ff(s) {
        Ok(None)
    } else if s[1] == 0x30 {
        Ok(Some(Measurement::Temperature(be32(s, 3) as u32, sbe32(s, 7) as i32)))
    } else if s[1] == 0x31 {
        Ok(Some(Measurement::Humidity(be32(s, 3) as u32, be32(s, 7) as u32)))
    } else if s[1] == 0x32 {
        Ok(Some(Measurement::AirPressure(be32(s, 3) as u32, be32(s, 7) as u32)))
    } else {
        Err(Error::UnknownKind(s[1]))
    }
}

impl Measurement {
    /// Decodes one 11-byte log notification frame: checks the length,
    /// header and action bytes, recognises the all-`0xFF` end marker as
    /// `None`, and parses the tagged value with its timestamp.
    pub fn from_bytes(obs: &[u8]) -> (r: Result<Option<Measurement>, Error>)
        ensures
            r == spec_from_bytes(obs@),
    {
        if obs.len() != 11 {
            return Err(Error::BadLength(obs.len()));
        }
        if obs[0] != 0x3A {
            return Err(Error::BadHeader(obs[0]));
        }
        if obs[2] != 0x10 {
            return Err(Error::BadAction(obs[2]));
        }
        if obs[3] == 0xFF && obs[4] == 0xFF && obs[5] == 0xFF && obs[6] == 0xFF && obs[7] == 0xFF
            && obs[8] == 0xFF && obs[9] == 0xFF && obs[10] == 0xFF {
            return Ok(None);
        }
        let ts = read_be32(obs, 3);
        let raw = read_be32(obs, 7);
        match obs[1] {
            0x30 => {
                let value: i32 = if raw >= 0x80000000 {
                    ((raw as i64) - 0x100000000) as i32
                } else {
                    raw as i32
                };
                Ok(Some(Measurement::Temperature(ts, value)))
            },
            0x31 => Ok(Some(Measurement::Humidity(ts, raw))),
            0x32 => Ok(Some(Measurement::AirPressure(ts, raw))),
            _ => Err(Error::UnknownKind(obs[1])),
        }
    }
}

/// Reads the unsigned big-endian 32-bit value at `i`.
fn read_be32(s: &[u8], i: usize) -> (r: u32)
    requires
        i + 4 <= s@.len(),
    ensures
        r == be32(s@, i as int),
{
    (s[i] as u32) * 0x1000000 + (s[i + 1] as u32) * 0x10000 + (s[i + 2] as u32) * 0x100 + (s[i
        + 3] as u32)
}

/// The reassembly state of the incremental log path: at most one
/// pending (timestamp, value) per measurement kind.
#[derive(Clone, Copy, Debug, PartialEq, Eq)]
pub struct MeasurementState {
    pub temperature: Option<(u32, i32)>,
    pub humidity: Option<(u32, u32)>,
    pub air_pressure: Option<(u32, u32)>,
}

/// What extracting a completed record does to the state: an incomplete
/// window stays as it is and yields nothing; a full window whose
/// timestamps agree empties and yields the record; a full window whose
/// timestamps disagree fails and is left as it stands, the run being
/// over anyway.
pub open spec fn spec_extract(st: MeasurementState) -> (MeasurementState, Result<
    Option<LogRecord>,
    Error,
>) {
    match (st.temperature, st.humidity, st.air_pressure) {
        (Some((ts0, temp)), Some((ts1, hum)), Some((ts2, air))) => {
            if ts0 != ts1 || ts0 != ts2 {
                (st, Err(Error::ConflictingTimestamps))
            } else {
                (
                    MeasurementState { temperature: None, humidity: None, air_pressure: None },
                    Ok(
                        Some(
                            LogRecord {
                                datetime: ts0,
                                temperature: temp,
                                humidity: hum,
                                air_pressure: air,
                            },
                        ),
                    ),
                )
            }
        },
        _ => (st, Ok(None)),
    }
}

/// What one update does: a measurement for an occupied slot fails as a
/// duplicate and changes nothing; otherwise the slot fills and a
/// completed window is extracted as in [`spec_extract`].
pub open spec fn spec_update(st: MeasurementState, meas: Measurement) -> (MeasurementState, Result<
    Option<LogRecord>,
    Error,
>) {
    match meas {
        Measurement::Temperature(ts, temp) => {
            if st.temperature is Some {
                (st, Err(Error::DuplicateField(MeasurementKind::Temperature)))
            } else {
                spec_extract(MeasurementState { temperature: Some((ts, temp)), ..st })
            }
        },
        Measurement::Humidity(ts, hum) => {
            if st.humidity is Some {
                (st, Err(Error::DuplicateField(MeasurementKind::Humidity)))
            } else {
                spec_extract(MeasurementState { humidity: Some((ts, hum)), ..st })
            }
        },
        Measurement::AirPressure(ts, air) => {
            if st.air_pressure is Some {
                (st, Err(Error::DuplicateField(MeasurementKind::AirPressure)))
            } else {
                spec_extract(MeasurementState { air_pressure: Some((ts, air)), ..st })
            }
        },
    }
}

impl MeasurementState {
    /// A fresh window with every slot empty.
    pub fn new() -> (r: Self)
        ensures
            r == (MeasurementState { temperature: None, humidity: None, air_pressure: None }),
    {
        Self { temperature: None, humidity: None, air_pressure: None }
    }

    /// Extracts the completed record once all three slots are occupied
    /// and their timestamps agree; fails on disagreeing timestamps.
    fn extract_record(&mut self) -> (r: Result<Option<LogRecord>, Error>)
        ensures
            *final(self) == spec_extract(*old(self)).0,
            r == spec_extract(*old(self)).1,
    {
        let (ts_temp, temp, ts_hum, hum, ts_air, air) = match (
            self.temperature,
            self.humidity,
            self.air_pressure,
        ) {
            (Some((ts0, temp)), Some((ts1, hum)), Some((ts2, air))) => (
                ts0,
                temp,
                ts1,
                hum,
                ts2,
                air,
            ),
            _ => {
                return Ok(None);
            },
        };
        if ts_temp != ts_hum || ts_temp != ts_air {
            return Err(Error::ConflictingTimestamps);
        }
        self.temperature = None;
        self.humidity = None;
        self.air_pressure = None;
        Ok(
            Some(
                LogRecord {
                    datetime: ts_temp,
                    temperature: temp,
                    humidity: hum,
                    air_pressure: air,
                },
            ),
        )
    }

    /// Files one measurement into the window: a measurement for an
    /// occupied slot is a duplicate-field error, filling the last slot
    /// emits the completed record (or fails on disagreeing timestamps),
    /// anything else returns nothing and waits.
    pub fn update(&mut self, meas: Measurement) -> (r: Result<Option<LogRecord>, Error>)
        ensures
            *final(self) == spec_update(*old(self), meas).0,
            r == spec_update(*old(self), meas).1,
    {
        match meas {
            Measurement::Temperature(ts, temp) => {
                if self.temperature.is_some() {
                    return Err(Error::DuplicateField(MeasurementKind::Temperature));
                }
                self.temperature = Some((ts, temp));
            },
            Measurement::Humidity(ts, hum) => {
                if self.humidity.is_some() {
                    return Err(Error::DuplicateField(MeasurementKind::Humidity));
                }
                self.humidity = Some((ts, hum));
            },
            Measurement::AirPressure(ts, air) => {
                if self.air_pressure.is_some() {
                    return Err(Error::DuplicateField(MeasurementKind::AirPressure));
                }
                self.air_pressure = Some((ts, air));
            },
        }
        self.extract_record()
    }
}

} // verus!
