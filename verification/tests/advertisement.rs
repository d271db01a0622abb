use ruuvi::err::{Error, Field};
use ruuvi::Advertisement;

#[test]
fn valid() {
    let valid_record: Vec<u8> = vec![
        0x05, 0x12, 0xFC, 0x53, 0x94, 0xC3, 0x7C, 0x00, 0x04, 0xFF, 0xFC, 0x04, 0x0C, 0xAC, 0x36,
        0x42, 0x00, 0xCD, 0xCB, 0xB8, 0x33, 0x4C, 0x88, 0x4F,
    ];

    let valid_val = Advertisement {
        temperature: 24300,
        air_pressure: 100044,
        humidity: 534900,
        acceleration: [4, -4, 1036],
        tx_power: 4,
        voltage: 2977,
        movement: 66,
        measurement: 205,
        mac: [0xcb, 0xb8, 0x33, 0x4c, 0x88, 0x4f],
    };
    let decoded = Advertisement::from_rawv5(&valid_record).unwrap();
    assert_eq!(decoded, valid_val);
    assert_eq!(decoded.temperature as f64 / 1000.0, 24.3);
    assert_eq!(decoded.humidity as f64 / 10000.0, 53.49);
    assert_eq!(decoded.acceleration[0] as f64 / 1000.0, 0.004);
    assert_eq!(decoded.acceleration[1] as f64 / 1000.0, -0.004);
    assert_eq!(decoded.acceleration[2] as f64 / 1000.0, 1.036);
    assert_eq!(decoded.voltage as f64 / 1000.0, 2.977);
}

#[test]
fn max() {
    let max_record: Vec<u8> = vec![
        0x05, 0x7F, 0xFF, 0xFF, 0xFE, 0xFF, 0xFE, 0x7F, 0xFF, 0x7F, 0xFF, 0x7F, 0xFF, 0xFF, 0xDE,
        0xFE, 0xFF, 0xFE, 0xCB, 0xB8, 0x33, 0x4C, 0x88, 0x4F,
    ];
    let max_val = Advertisement {
        temperature: 163835,
        air_pressure: 115534,
        humidity: 1638350,
        acceleration: [32767, 32767, 32767],
        tx_power: 20,
        voltage: 3646,
        movement: 254,
        measurement: 65534,
        mac: [0xcb, 0xb8, 0x33, 0x4c, 0x88, 0x4f],
    };
    let decoded = Advertisement::from_rawv5(&max_record).unwrap();
    assert_eq!(decoded, max_val);
    assert_eq!(decoded.temperature as f64 / 1000.0, 163.835);
    assert_eq!(decoded.humidity as f64 / 10000.0, 163.8350);
    assert_eq!(decoded.acceleration[0] as f64 / 1000.0, 32.767);
    assert_eq!(decoded.voltage as f64 / 1000.0, 3.646);
}

#[test]
fn min() {
    let min_record: Vec<u8> = vec![
        0x05, 0x80, 0x01, 0x00, 0x00, 0x00, 0x00, 0x80, 0x01, 0x80, 0x01, 0x80, 0x01, 0x00, 0x00,
        0x00, 0x00, 0x00, 0xCB, 0xB8, 0x33, 0x4C, 0x88, 0x4F,
    ];
    let min_val = Advertisement {
        temperature: -163835,
        air_pressure: 50000,
        humidity: 0,
        acceleration: [-32767, -32767, -32767],
        tx_power: -40,
        voltage: 1600,
        movement: 0,
        measurement: 0,
        mac: [0xcb, 0xb8, 0x33, 0x4c, 0x88, 0x4f],
    };
    let decoded = Advertisement::from_rawv5(&min_record).unwrap();
    assert_eq!(decoded, min_val);
    assert_eq!(decoded.temperature as f64 / 1000.0, -163.835);
    assert_eq!(decoded.humidity as f64 / 10000.0, 0.0);
    assert_eq!(decoded.acceleration[0] as f64 / 1000.0, -32.767);
    assert_eq!(decoded.voltage as f64 / 1000.0, 1.6);
}

#[test]
fn invalid_version() {
    let invalid_data: Vec<u8> = vec![0x02, 0x80, 0x01];
    assert_eq!(
        Advertisement::from_rawv5(&invalid_data)
            .unwrap_err()
            .message(),
        "Invalid version 2.".to_string()
    );
}

#[test]
fn invalid_data() {
    let invalid_data: Vec<u8> = vec![0x05, 0x80, 0x01];
    assert_eq!(
        Advertisement::from_rawv5(&invalid_data)
            .unwrap_err()
            .message(),
        "No humidity data.".to_string()
    );
}

#[test]
fn invalid_record() {
    let invalid_record: Vec<u8> = vec![
        0x05, 0x80, 0x00, 0xFF, 0xFF, 0xFF, 0xFF, 0x80, 0x00, 0x80, 0x00, 0x80, 0x00, 0xFF, 0xFF,
        0xFF, 0xFF, 0xFF, 0xFF, 0xFF, 0xFF, 0xFF, 0xFF, 0xFF,
    ];
    assert_eq!(
        Advertisement::from_rawv5(&invalid_record)
            .unwrap_err()
            .message(),
        "Invalid temperature.".to_string()
    );
}

fn valid_bytes() -> Vec<u8> {
    vec![
        0x05, 0x12, 0xFC, 0x53, 0x94, 0xC3, 0x7C, 0x00, 0x04, 0xFF, 0xFC, 0x04, 0x0C, 0xAC, 0x36,
        0x42, 0x00, 0xCD, 0xCB, 0xB8, 0x33, 0x4C, 0x88, 0x4F,
    ]
}

#[test]
fn encode_round_trip() {
    let bytes = valid_bytes();
    let decoded = Advertisement::from_rawv5(&bytes).unwrap();
    let encoded = decoded.to_rawv5();
    assert_eq!(encoded, bytes);
    assert_eq!(Advertisement::from_rawv5(&encoded).unwrap(), decoded);
}

#[test]
fn sentinel_humidity() {
    let mut bytes = valid_bytes();
    bytes[3] = 0xFF;
    bytes[4] = 0xFF;
    let err = Advertisement::from_rawv5(&bytes).unwrap_err();
    assert_eq!(err, Error::InvalidField(Field::Humidity));
    assert_eq!(err.message(), "Invalid humidity.".to_string());
}

#[test]
fn sentinel_air_pressure() {
    let mut bytes = valid_bytes();
    bytes[5] = 0xFF;
    bytes[6] = 0xFF;
    let err = Advertisement::from_rawv5(&bytes).unwrap_err();
    assert_eq!(err, Error::InvalidField(Field::AirPressure));
    assert_eq!(err.message(), "Invalid air_pressure.".to_string());
}

#[test]
fn sentinel_acceleration_each_axis() {
    for axis in 0..3usize {
        let mut bytes = valid_bytes();
        bytes[7 + 2 * axis] = 0x80;
        bytes[8 + 2 * axis] = 0x00;
        let err = Advertisement::from_rawv5(&bytes).unwrap_err();
        assert_eq!(err, Error::InvalidField(Field::Acceleration));
        assert_eq!(err.message(), "Invalid acceleration.".to_string());
    }
}

#[test]
fn sentinel_voltage() {
    let mut bytes = valid_bytes();
    bytes[13] = 0xFF;
    bytes[14] = 0xE4;
    let err = Advertisement::from_rawv5(&bytes).unwrap_err();
    assert_eq!(err, Error::InvalidVoltage);
    assert_eq!(err.message(), "Invalid voltage 2047".to_string());
}

#[test]
fn sentinel_tx_power() {
    let mut bytes = valid_bytes();
    bytes[13] = 0x00;
    bytes[14] = 0x1F;
    let err = Advertisement::from_rawv5(&bytes).unwrap_err();
    assert_eq!(err, Error::InvalidTxPower);
    assert_eq!(err.message(), "Invalid transmission power 31".to_string());
}

#[test]
fn sentinel_movement() {
    let mut bytes = valid_bytes();
    bytes[15] = 0xFF;
    let err = Advertisement::from_rawv5(&bytes).unwrap_err();
    assert_eq!(err, Error::InvalidField(Field::Movement));
    assert_eq!(err.message(), "Invalid movement.".to_string());
}

#[test]
fn sentinel_measurement_counter() {
    let mut bytes = valid_bytes();
    bytes[16] = 0xFF;
    bytes[17] = 0xFF;
    let err = Advertisement::from_rawv5(&bytes).unwrap_err();
    assert_eq!(err, Error::InvalidField(Field::MeasurementSeq));
    assert_eq!(err.message(), "Invalid measurement.".to_string());
}

#[test]
fn missing_data_at_each_field() {
    let bytes = valid_bytes();
    let cases: Vec<(usize, &str)> = vec![
        (0, "No version data."),
        (1, "No temperature data."),
        (3, "No humidity data."),
        (5, "No air_pressure data."),
        (7, "No acceleration data."),
        (9, "No acceleration data."),
        (11, "No acceleration data."),
        (13, "No voltage and transmission power data."),
        (15, "No movement data."),
        (16, "No measurement data."),
        (18, "No mac address data."),
        (23, "No mac address data."),
    ];
    for (len, msg) in cases {
        let err = Advertisement::from_rawv5(&bytes[..len]).unwrap_err();
        assert_eq!(err.message(), msg.to_string());
    }
}

#[test]
fn trailing_bytes_are_ignored() {
    let mut bytes = valid_bytes();
    let decoded = Advertisement::from_rawv5(&bytes).unwrap();
    bytes.push(0xAA);
    bytes.push(0xBB);
    assert_eq!(Advertisement::from_rawv5(&bytes).unwrap(), decoded);
}

#[test]
fn mac_getter_is_verbatim() {
    let bytes = valid_bytes();
    let decoded = Advertisement::from_rawv5(&bytes).unwrap();
    assert_eq!(decoded.mac(), [0xcb, 0xb8, 0x33, 0x4c, 0x88, 0x4f]);
    let mut all_ff = valid_bytes();
    for i in 18..24 {
        all_ff[i] = 0xFF;
    }
    assert_eq!(
        Advertisement::from_rawv5(&all_ff).unwrap().mac(),
        [0xFF; 6]
    );
}
