use ruuvi::err::Error;
use ruuvi::log_record;
use ruuvi::ruuvi::Measurement;

fn frame(kind: u8, ts: u32, value: u32) -> Vec<u8> {
    let mut v = vec![0x3A, kind, 0x10];
    v.extend_from_slice(&ts.to_be_bytes());
    v.extend_from_slice(&value.to_be_bytes());
    v
}

#[test]
fn measurement_valid_measurement() {
    let ts = ruuvi::ruuvi::datetime_to_bytes(chrono::Utc::now().timestamp())
        .and_then(ruuvi::ruuvi::datetime_from_bytes)
        .unwrap();
    let meas_data = [
        &[0x3A, 0x30, 0x10],
        ruuvi::ruuvi::datetime_to_bytes(ts as i64).unwrap().as_slice(),
        &[0x00, 0x00, 0x00, 0x85],
    ]
    .concat();
    let meas_exp = Measurement::Temp(ts, 133);
    assert_eq!(Measurement::from_bytes(&meas_data).unwrap(), meas_exp);
    assert_eq!(133 as f64 * 0.01, 1.33);
}

#[test]
fn log_record_valid_measurement() {
    let ts = log_record::datetime_to_bytes(chrono::Utc::now().timestamp())
        .and_then(log_record::datetime_from_bytes)
        .unwrap();
    let meas_data = [
        &[0x3A, 0x30, 0x10],
        log_record::datetime_to_bytes(ts as i64).unwrap().as_slice(),
        &[0x00, 0x00, 0x00, 0x85],
    ]
    .concat();
    let meas_exp = log_record::Measurement::Temperature(ts, 133);
    assert_eq!(
        log_record::Measurement::from_bytes(&meas_data).unwrap().unwrap(),
        meas_exp
    );
}

#[test]
fn parses_each_kind() {
    assert_eq!(
        Measurement::from_bytes(&frame(0x30, 1000, 250)).unwrap(),
        Measurement::Temp(1000, 250)
    );
    assert_eq!(
        Measurement::from_bytes(&frame(0x31, 1000, 4500)).unwrap(),
        Measurement::Hum(1000, 4500)
    );
    assert_eq!(
        Measurement::from_bytes(&frame(0x32, 1000, 99000)).unwrap(),
        Measurement::AirPres(1000, 99000)
    );
}

#[test]
fn negative_temperature_value() {
    let m = Measurement::from_bytes(&frame(0x30, 7, 0xFFFF_FF38)).unwrap();
    assert_eq!(m, Measurement::Temp(7, -200));
}

#[test]
fn bad_length_frame() {
    let err = Measurement::from_bytes(&[0x3A, 0x30, 0x10, 0, 0, 0, 0, 0, 0, 0]).unwrap_err();
    assert_eq!(err, Error::BadLength(10));
    assert_eq!(
        err.message(),
        "payload length should be 11 (was 10)".to_string()
    );
}

#[test]
fn bad_header_frame() {
    let mut f = frame(0x30, 0, 0);
    f[0] = 0x3B;
    let err = Measurement::from_bytes(&f).unwrap_err();
    assert_eq!(err, Error::BadHeader(0x3B));
    assert_eq!(
        err.message(),
        "header should start with 0x3A (was 0x3b)".to_string()
    );
}

#[test]
fn bad_action_frame() {
    let mut f = frame(0x30, 0, 0);
    f[2] = 0x11;
    let err = Measurement::from_bytes(&f).unwrap_err();
    assert_eq!(err, Error::BadAction(0x11));
    assert_eq!(
        err.message(),
        "action should be read (0x10, was 0x11)".to_string()
    );
}

#[test]
fn unknown_kind_frame() {
    let err = Measurement::from_bytes(&frame(0x33, 0, 0)).unwrap_err();
    assert_eq!(err, Error::UnknownKind(0x33));
    assert_eq!(err.message(), "invalid observation type 33".to_string());
}

#[test]
fn end_of_measurements_frame() {
    let f = frame(0x3A, 0xFFFF_FFFF, 0xFFFF_FFFF);
    assert_eq!(
        Measurement::from_bytes(&f).unwrap(),
        Measurement::EndOfMeasurements
    );
}

#[test]
fn end_marker_dialects_differ_on_kind_byte() {
    let f = frame(0x30, 0xFFFF_FFFF, 0xFFFF_FFFF);
    assert_eq!(
        Measurement::from_bytes(&f).unwrap(),
        Measurement::Temp(0xFFFF_FFFF, -1)
    );
    assert_eq!(log_record::Measurement::from_bytes(&f).unwrap(), None);
}

#[test]
fn from_11_bytes_filters_length() {
    assert!(Measurement::from_11_bytes(&[0x3A, 0x30]).is_none());
    let f = frame(0x30, 5, 6);
    assert_eq!(
        Measurement::from_11_bytes(&f).unwrap().unwrap(),
        Measurement::Temp(5, 6)
    );
}

#[test]
fn datetime_bytes_round_trip() {
    assert_eq!(ruuvi::ruuvi::datetime_from_bytes([0, 0, 0, 5]).unwrap(), 5);
    let b = ruuvi::ruuvi::datetime_to_bytes(2147483647).unwrap();
    assert_eq!(b, [0x7F, 0xFF, 0xFF, 0xFF]);
    assert_eq!(ruuvi::ruuvi::datetime_from_bytes(b).unwrap(), 2147483647);
    assert_eq!(
        ruuvi::ruuvi::datetime_to_bytes(-1).unwrap(),
        [0xFF, 0xFF, 0xFF, 0xFF]
    );
}

#[test]
fn datetime_to_bytes_overflow() {
    let err = ruuvi::ruuvi::datetime_to_bytes(2147483648).unwrap_err();
    assert_eq!(err, Error::TimestampOverflow(2147483648));
    assert_eq!(
        err.message(),
        "timestamp 2147483648 does not fit in 32 bits".to_string()
    );
    assert!(ruuvi::ruuvi::datetime_to_bytes(-2147483649).is_err());
    assert_eq!(
        ruuvi::ruuvi::datetime_to_bytes(i64::MIN).unwrap_err().message(),
        "timestamp -9223372036854775808 does not fit in 32 bits".to_string()
    );
}
