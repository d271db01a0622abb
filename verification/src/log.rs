//! The outbound command of the historical-log exchange.
//!
//! A log query is eleven bytes: the fixed header `3A 3A 11` followed by
//! the query's end time and then its start time, each a signed 32-bit
//! big-endian Unix-seconds value.  The start time is pulled into the
//! window from 240 hours before now up to one minute before now; a
//! caller-requested start outside that window is clamped to the nearer
//! bound, not rejected.  Encoding fails only when an epoch-seconds value
//! does not fit in a signed 32-bit integer.

use crate::err::{Error, Res};
use crate::ruuvi::measurement::{datetime_to_bytes, spec_timestamp_bytes};
use vstd::prelude::*;

verus! {

/// UUID of the UART service that carries the log exchange.
pub const UART_SVC: u128 = 0x6e400001b5a3f393e0a9e50e24dcca9e;

/// UUID of the characteristic the request command is written to.
pub const UART_RX: u128 = 0x6e400002b5a3f393e0a9e50e24dcca9e;

/// UUID of the characteristic the reply frames are notified on.
pub const UART_TX: u128 = 0x6e400003b5a3f393e0a9e50e24dcca9e;

/// The start time the request actually carries: the caller's start
/// pulled into the window `[now - 240 hours, now - 1 minute]`, the
/// bounds saturating at the bottom of the 64-bit range.
pub open spec fn spec_clamped_start(now: int, start: int) -> int {
    let hi = if now - 60 >= i64::MIN {
        now - 60
    } else {
        i64::MIN as int
    };
    let lo = if now - 864000 >= i64::MIN {
        now - 864000
    } else {
        i64::MIN as int
    };
    let pulled_down = if start > hi {
        hi
    } else {
        start
    };
    if pulled_down < lo {
        lo
    } else {
        pulled_down
    }
}

/// The eleven bytes of a log query, or the overflow error of the first
/// timestamp — the end time, then the clamped start — that does not fit
/// in a signed 32-bit integer.
pub open spec fn spec_log_request(now: int, start: int) -> Result<Seq<u8>, Error> {
    if !(-0x80000000 <= now <= 0x7FFFFFFF) {
        Err(Error::TimestampOverflow(now as i64))
    } else if !(-0x80000000 <= spec_clamped_start(now, start) <= 0x7FFFFFFF) {
        Err(Error::TimestampOverflow(spec_clamped_start(now, start) as i64))
    } else {
        Ok(
            seq![0x3Au8, 0x3Au8, 0x11u8] + spec_timestamp_bytes(now) + spec_timestamp_bytes(
                spec_clamped_start(now, start),
            ),
        )
    }
}

/// Builds the log query for the window ending now and starting at
/// `log_start`, clamping the start into the allowed window.
pub fn log_request(current_ts: i64, log_start: i64) -> (r: Res<Vec<u8>>)
    ensures
        (match r {
            Ok(v) => spec_log_request(current_ts as int, log_start as int) == Ok::<Seq<u8>, Error>(
                v@,
            ) && v@.len() == 11,
            Err(e) => spec_log_request(current_ts as int, log_start as int) == Err::<
                Seq<u8>,
                Error,
            >(e),
        }),
{
    let hi: i64 = if current_ts >= i64::MIN + 60 {
        current_ts - 60
    } else {
        i64::MIN
    };
    let lo: i64 = if current_ts >= i64::MIN + 864000 {
        current_ts - 864000
    } else {
        i64::MIN
    };
    let pulled_down: i64 = if log_start > hi {
        hi
    } else {
        log_start
    };
    let start: i64 = if pulled_down < lo {
        lo
    } else {
        pulled_down
    };
    let end_bytes = datetime_to_bytes(current_ts)?;
    let start_bytes = datetime_to_bytes(start)?;
    let mut v: Vec<u8> = Vec::new();
    v.push(0x3A);
    v.push(0x3A);
    v.push(0x11);
    v.push(end_bytes[0]);
    v.push(end_bytes[1]);
    v.push(end_bytes[2]);
    v.push(end_bytes[3]);
    v.push(start_bytes[0]);
    v.push(start_bytes[1]);
    v.push(start_bytes[2]);
    v.push(start_bytes[3]);
    proof {
        assert(v@ =~= seq![0x3Au8, 0x3Au8, 0x11u8] + spec_timestamp_bytes(current_ts as int)
            + spec_timestamp_bytes(start as int));
    }
    Ok(v)
}

} // verus!
