use ruuvi::err::Error;
use ruuvi::log::{log_request, UART_RX, UART_SVC, UART_TX};

#[test]
fn request_layout() {
    let now: i64 = 1_000_000;
    let req = log_request(now, 500_000).unwrap();
    assert_eq!(req.len(), 11);
    assert_eq!(&req[0..3], &[0x3A, 0x3A, 0x11]);
    assert_eq!(&req[3..7], &1_000_000u32.to_be_bytes());
    assert_eq!(&req[7..11], &500_000u32.to_be_bytes());
}

#[test]
fn start_clamped_up_to_one_minute_before_now() {
    let now: i64 = 1_000_000;
    let req = log_request(now, now + 5_000).unwrap();
    assert_eq!(&req[7..11], &(1_000_000u32 - 60).to_be_bytes());
}

#[test]
fn start_clamped_down_to_240_hours_before_now() {
    let now: i64 = 1_000_000;
    let req = log_request(now, 1).unwrap();
    assert_eq!(&req[7..11], &(1_000_000u32 - 864_000).to_be_bytes());
}

#[test]
fn request_overflow_beyond_2038() {
    let now: i64 = 3_000_000_000;
    let err = log_request(now, 0).unwrap_err();
    assert_eq!(err, Error::TimestampOverflow(3_000_000_000));
}

#[test]
fn request_overflow_of_clamped_start() {
    let now: i64 = -2_147_000_000;
    let err = log_request(now, i64::MIN).unwrap_err();
    assert_eq!(err, Error::TimestampOverflow(-2_147_000_000 - 864_000));
}

#[test]
fn uart_uuids_are_distinct_channels() {
    assert_eq!(UART_SVC, 0x6e400001b5a3f393e0a9e50e24dcca9e);
    assert_eq!(UART_RX, 0x6e400002b5a3f393e0a9e50e24dcca9e);
    assert_eq!(UART_TX, 0x6e400003b5a3f393e0a9e50e24dcca9e);
}
