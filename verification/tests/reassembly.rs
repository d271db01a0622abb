use ruuvi::err::{Error, MeasurementKind};
use ruuvi::log_record::{LogRecord, MeasurementState};
use ruuvi::ruuvi::record::reassemble;
use ruuvi::ruuvi::Measurement;
use ruuvi::Record;

fn triple(ts: u32) -> (Measurement, Measurement, Measurement) {
    (
        Measurement::Temp(ts, 1500),
        Measurement::Hum(ts, 4000),
        Measurement::AirPres(ts, 10000),
    )
}

fn record(ts: u32) -> Record {
    Record {
        datetime: ts,
        temperature: 1500,
        humidity: 4000,
        air_pressure: 10000,
    }
}

#[test]
fn valid_log() {
    let datetime = chrono::Utc::now().timestamp() as u32;
    let temperature = 1500;
    let humidity = 4000;
    let air_pressure = 10000;
    let temp = Measurement::Temp(datetime, temperature);
    let hum = Measurement::Hum(datetime, humidity);
    let air_pres = Measurement::AirPres(datetime, air_pressure);
    let log_exp = Record {
        datetime,
        temperature,
        humidity,
        air_pressure,
    };
    let log = Record::try_from((&temp, &hum, &air_pres)).unwrap();
    assert_eq!(log, log_exp);
    assert_eq!(log.temperature as f64 / 100.0, 15.0);
    assert_eq!(log.humidity as f64 / 100.0, 40.0);
}

#[test]
fn triple_in_any_order() {
    let (t, h, a) = triple(99);
    let perms = vec![
        vec![t, h, a],
        vec![t, a, h],
        vec![h, t, a],
        vec![h, a, t],
        vec![a, t, h],
        vec![a, h, t],
    ];
    for perm in perms {
        assert_eq!(
            Record::try_from((&perm[0], &perm[1], &perm[2])).unwrap(),
            record(99)
        );
        let mut ms = perm.clone();
        ms.push(Measurement::EndOfMeasurements);
        assert_eq!(reassemble(&ms).unwrap(), vec![record(99)]);
    }
}

#[test]
fn mismatched_timestamp_conflicts() {
    let t = Measurement::Temp(99, 1500);
    let h = Measurement::Hum(99, 4000);
    let a = Measurement::AirPres(100, 10000);
    let err = Record::try_from((&t, &h, &a)).unwrap_err();
    assert_eq!(err, Error::ConflictingTimestamps);
    assert_eq!(err.message(), "conflicting timestamps".to_string());
    let ms = vec![t, h, a, Measurement::EndOfMeasurements];
    assert_eq!(
        reassemble(&ms).unwrap_err(),
        Error::ConflictingTimestamps
    );
}

#[test]
fn duplicate_kind_fails() {
    let ms = vec![
        Measurement::Temp(7, 1),
        Measurement::Temp(7, 2),
        Measurement::Hum(7, 3),
        Measurement::EndOfMeasurements,
    ];
    let err = reassemble(&ms).unwrap_err();
    assert_eq!(err, Error::DuplicateField(MeasurementKind::Temperature));
    assert_eq!(
        err.message(),
        "trying to add temperature while it already exists".to_string()
    );
}

#[test]
fn stream_without_end_marker_fails() {
    let (t, h, a) = triple(42);
    let err = reassemble(&vec![t, h, a]).unwrap_err();
    assert_eq!(err, Error::UnexpectedEndOfStream);
    assert_eq!(err.message(), "unexpected end of stream".to_string());
    assert_eq!(
        reassemble(&Vec::new()).unwrap_err(),
        Error::UnexpectedEndOfStream
    );
}

#[test]
fn end_marker_drops_partial_triple() {
    let ms = vec![Measurement::Temp(42, 1500), Measurement::EndOfMeasurements];
    assert_eq!(reassemble(&ms).unwrap(), Vec::new());
    let ms2 = vec![
        Measurement::Temp(42, 1500),
        Measurement::Hum(42, 4000),
        Measurement::EndOfMeasurements,
    ];
    assert_eq!(reassemble(&ms2).unwrap(), Vec::new());
    assert_eq!(
        reassemble(&vec![Measurement::EndOfMeasurements]).unwrap(),
        Vec::new()
    );
}

#[test]
fn two_records_interleaved_across_orders() {
    let ms = vec![
        Measurement::AirPres(1, 10000),
        Measurement::Temp(1, 1500),
        Measurement::Hum(1, 4000),
        Measurement::Hum(2, 4100),
        Measurement::AirPres(2, 10100),
        Measurement::Temp(2, 1600),
        Measurement::EndOfMeasurements,
    ];
    let records = reassemble(&ms).unwrap();
    assert_eq!(
        records,
        vec![
            record(1),
            Record {
                datetime: 2,
                temperature: 1600,
                humidity: 4100,
                air_pressure: 10100,
            },
        ]
    );
}

#[test]
fn from_chunk_accepts_only_triples() {
    let (t, h, a) = triple(5);
    assert_eq!(Record::from_chunk(&[t, h, a]).unwrap(), record(5));
    let err = Record::from_chunk(&[t, h]).unwrap_err();
    assert_eq!(err, Error::InvalidChunk(2));
    assert_eq!(err.message(), "Invalid chunk of size 2".to_string());
}

#[test]
fn invalid_triple_is_rejected() {
    let t = Measurement::Temp(5, 1);
    let h = Measurement::Hum(5, 2);
    let err = Record::try_from((&t, &t, &h)).unwrap_err();
    assert_eq!(err, Error::InvalidTriple);
    assert_eq!(err.message(), "not a valid measurement triplet".to_string());
}

#[test]
fn measurement_state_emits_on_completion() {
    let mut st = MeasurementState::new();
    assert_eq!(st.update(ruuvi::log_record::Measurement::Temperature(9, 1500)), Ok(None));
    assert_eq!(st.update(ruuvi::log_record::Measurement::AirPressure(9, 10000)), Ok(None));
    assert_eq!(
        st.update(ruuvi::log_record::Measurement::Humidity(9, 4000)),
        Ok(Some(LogRecord {
            datetime: 9,
            temperature: 1500,
            humidity: 4000,
            air_pressure: 10000,
        }))
    );
    assert_eq!(st.update(ruuvi::log_record::Measurement::Temperature(10, 1)), Ok(None));
}

#[test]
fn measurement_state_rejects_duplicates() {
    let mut st = MeasurementState::new();
    assert_eq!(st.update(ruuvi::log_record::Measurement::Temperature(9, 1500)), Ok(None));
    assert_eq!(
        st.update(ruuvi::log_record::Measurement::Temperature(9, 1600)),
        Err(Error::DuplicateField(MeasurementKind::Temperature))
    );
}

#[test]
fn measurement_state_rejects_conflicting_timestamps() {
    let mut st = MeasurementState::new();
    assert_eq!(st.update(ruuvi::log_record::Measurement::Temperature(9, 1500)), Ok(None));
    assert_eq!(st.update(ruuvi::log_record::Measurement::Humidity(9, 4000)), Ok(None));
    assert_eq!(
        st.update(ruuvi::log_record::Measurement::AirPressure(10, 10000)),
        Err(Error::ConflictingTimestamps)
    );
}
