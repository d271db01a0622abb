//! Decoders for the wire formats of a battery-powered environmental sensor
//! beacon: the fixed-layout live-advertisement payload, the historical-log
//! request/response exchange, and the stateful reassembly of single-value
//! log frames into complete timestamped records.
//!
//! Quantities that the sensor reports at a fixed resolution are held as
//! exact scaled integers (milli-degrees, milli-g, millivolts, and so on);
//! timestamps are held as Unix seconds.  Conversion to floating point and
//! all transport (Bluetooth sessions, HTTP delivery, printing) belong to
//! the surrounding application, not to this crate.

pub mod cacher;
pub mod err;
pub mod log;
pub mod log_record;
pub mod ruuvi;
pub mod util;

pub use err::Error;
pub use ruuvi::{Advertisement, Record};
