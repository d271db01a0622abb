//! The sensor's own wire formats: the live-advertisement payload and the
//! historical-log notification frames, with the reassembly of the latter
//! into complete records.

use vstd::prelude::*;

pub use advertisement::Advertisement;
pub use measurement::{datetime_from_bytes, datetime_to_bytes, Measurement};
pub use record::Record;

pub mod advertisement;
pub mod measurement;
pub mod record;

verus! {

/// The manufacturer identifier both data paths filter on before any
/// payload reaches the decoders.
pub const MANUFACTURER_ID: u16 = 0x0499;

} // verus!
