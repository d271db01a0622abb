//! Reassembly of single-value log measurements into complete records.
//!
//! Each historical-log record reaches the host as three separate frames —
//! temperature, humidity and air pressure — sharing one timestamp, in no
//! guaranteed order, and closed off by an end-of-measurements marker.
//! The reassembler keeps at most one pending value per kind: a second
//! arrival for an occupied kind is a protocol error, not an overwrite,
//! and a completed triple must agree on its timestamp.  The marker ends
//! the run successfully, discarding a trailing partial triple; a stream
//! that closes without the marker is an error.

use crate::err::{Error, MeasurementKind, Res};
use crate::ruuvi::measurement::Measurement;
use vstd::prelude::*;

verus! {

/// One completed log entry: temperature (centi-degrees Celsius),
/// humidity (hundredths of a percent) and air pressure (pascal), all
/// measured at one shared Unix-seconds timestamp.
#[derive(Clone, Copy, Debug, PartialEq, Eq)]
pub struct Record {
    pub datetime: u32,
    pub temperature: i32,
    pub humidity: u32,
    pub air_pressure: u32,
}

/// The record a full triple combines into, provided the three
/// timestamps agree.
pub open spec fn spec_combine(tst: u32, t: i32, tsh: u32, h: u32, tsa: u32, a: u32) -> Result<
    Record,
    Error,
> {
    if tst != tsh || tst != tsa {
        Err(Error::ConflictingTimestamps)
    } else {
        Ok(
            Record {
                datetime: tst,
                temperature: t,
                humidity: h,
                air_pressure: a,
            },
        )
    }
}

/// What combining three measurements yields: they must hold exactly one
/// measurement of each kind, in any order, sharing one timestamp.
pub open spec fn spec_record_of(m1: Measurement, m2: Measurement, m3: Measurement) -> Result<
    Record,
    Error,
> {
    match (m1, m2, m3) {
        (
            Measurement::Temp(tst, t),
            Measurement::Hum(tsh, h),
            Measurement::AirPres(tsa, a),
        ) => spec_combine(tst, t, tsh, h, tsa, a),
        (
            Measurement::Temp(tst, t),
            Measurement::AirPres(tsa, a),
            Measurement::Hum(tsh, h),
        ) => spec_combine(tst, t, tsh, h, tsa, a),
        (
            Measurement::Hum(tsh, h),
            Measurement::Temp(tst, t),
            Measurement::AirPres(tsa, a),
        ) => spec_combine(tst, t, tsh, h, tsa, a),
        (
            Measurement::Hum(tsh, h),
            Measurement::AirPres(tsa, a),
            Measurement::Temp(tst, t),
        ) => spec_combine(tst, t, tsh, h, tsa, a),
        (
            Measurement::AirPres(tsa, a),
            Measurement::Temp(tst, t),
            Measurement::Hum(tsh, h),
        ) => spec_combine(tst, t, tsh, h, tsa, a),
        (
            Measurement::AirPres(tsa, a),
            Measurement::Hum(tsh, h),
            Measurement::Temp(tst, t),
        ) => spec_combine(tst, t, tsh, h, tsa, a),
        _ => Err(Error::InvalidTriple),
    }
}

impl Record {
    /// Combines a chunk of exactly three measurements — one of each
    /// kind, in any order, sharing one timestamp — into a record.
    pub fn from_chunk(chunk: &[Measurement]) -> (r: Res<Record>)
        ensures
            r == (if chunk@.len() == 3 {
                spec_record_of(chunk@[0], chunk@[1], chunk@[2])
            } else {
                Err::<Record, Error>(Error::InvalidChunk(chunk@.len() as usize))
            }),
    {
        if chunk.len() == 3 {
            Record::try_from((&chunk[0], &chunk[1], &chunk[2]))
        } else {
            Err(Error::InvalidChunk(chunk.len()))
        }
    }

    /// Combines three measurements — one of each kind, in any order —
    /// into a record, checking that they share one timestamp.
    pub fn try_from(value: (&Measurement, &Measurement, &Measurement)) -> (r: Res<Record>)
        ensures
            r == spec_record_of(*value.0, *value.1, *value.2),
    {
        let (tst, tsh, tsa, t, h, a) = match (*value.0, *value.1, *value.2) {
            (
                Measurement::Temp(tst, t),
                Measurement::Hum(tsh, h),
                Measurement::AirPres(tsa, a),
            ) => (tst, tsh, tsa, t, h, a),
            (
                Measurement::Temp(tst, t),
                Measurement::AirPres(tsa, a),
                Measurement::Hum(tsh, h),
            ) => (tst, tsh, tsa, t, h, a),
            (
                Measurement::Hum(tsh, h),
                Measurement::Temp(tst, t),
                Measurement::AirPres(tsa, a),
            ) => (tst, tsh, tsa, t, h, a),
            (
                Measurement::Hum(tsh, h),
                Measurement::AirPres(tsa, a),
                Measurement::Temp(tst, t),
            ) => (tst, tsh, tsa, t, h, a),
            (
                Measurement::AirPres(tsa, a),
                Measurement::Temp(tst, t),
                Measurement::Hum(tsh, h),
            ) => (tst, tsh, tsa, t, h, a),
            (
                Measurement::AirPres(tsa, a),
                Measurement::Hum(tsh, h),
                Measurement::Temp(tst, t),
            ) => (tst, tsh, tsa, t, h, a),
            _ => {
                return Err(Error::InvalidTriple);
            },
        };
        if tst != tsh || tst != tsa {
            return Err(Error::ConflictingTimestamps);
        }
        Ok(
            Record {
                datetime: tst,
                temperature: t,
                humidity: h,
                air_pressure: a,
            },
        )
    }
}

/// The reassembly window: at most one pending (timestamp, value) per
/// measurement kind.
#[derive(Clone, Copy, Debug, PartialEq, Eq)]
pub struct PendingSlots {
    pub temperature: Option<(u32, i32)>,
    pub humidity: Option<(u32, u32)>,
    pub air_pressure: Option<(u32, u32)>,
}

/// The window with every slot empty.
pub open spec fn spec_empty_slots() -> PendingSlots {
    PendingSlots { temperature: None, humidity: None, air_pressure: None }
}

/// Emits the completed record once all three slots are occupied; an
/// incomplete window is left as it is.
pub open spec fn spec_close(st: PendingSlots) -> Result<(PendingSlots, Option<Record>), Error> {
    match (st.temperature, st.humidity, st.air_pressure) {
        (Some((tst, t)), Some((tsh, h)), Some((tsa, a))) => match spec_combine(
            tst,
            t,
            tsh,
            h,
            tsa,
            a,
        ) {
            Ok(rec) => Ok((spec_empty_slots(), Some(rec))),
            Err(e) => Err(e),
        },
        _ => Ok((st, None)),
    }
}

/// One reassembly step: filing measurement `m` into window `st`.  A
/// measurement for an occupied slot is a protocol error; filling the
/// last empty slot emits the combined record and clears the window.
/// The end-of-measurements marker is handled by the run itself, never
/// by a step, so the step leaves it a no-op.
pub open spec fn spec_step(st: PendingSlots, m: Measurement) -> Result<
    (PendingSlots, Option<Record>),
    Error,
> {
    match m {
        Measurement::Temp(ts, v) => if st.temperature is Some {
            Err(Error::DuplicateField(MeasurementKind::Temperature))
        } else {
            spec_close(PendingSlots { temperature: Some((ts, v)), ..st })
        },
        Measurement::Hum(ts, v) => if st.humidity is Some {
            Err(Error::DuplicateField(MeasurementKind::Humidity))
        } else {
            spec_close(PendingSlots { humidity: Some((ts, v)), ..st })
        },
        Measurement::AirPres(ts, v) => if st.air_pressure is Some {
            Err(Error::DuplicateField(MeasurementKind::AirPressure))
        } else {
            spec_close(PendingSlots { air_pressure: Some((ts, v)), ..st })
        },
        Measurement::EndOfMeasurements => Ok((st, None)),
    }
}

/// How a finite stream of measurements fares through reassembly.
pub enum RunOutcome {
    /// The stream ran out without the end-of-measurements marker:
    /// the records emitted so far, and the final window.
    Pending(Seq<Record>, PendingSlots),
    /// The marker arrived: the records emitted before it.  A partial
    /// window at that point is discarded, not an error.
    Done(Seq<Record>),
    /// A protocol error ended the run.
    Failed(Error),
}

/// The records an emitted step result contributes.
pub open spec fn spec_emitted(o: Option<Record>) -> Seq<Record> {
    match o {
        Some(rec) => seq![rec],
        None => seq![],
    }
}

/// Runs the reassembly state machine over a measurement stream,
/// starting from window `st` with `acc` already emitted.
pub open spec fn spec_run(ms: Seq<Measurement>, st: PendingSlots, acc: Seq<Record>) -> RunOutcome
    decreases ms.len(),
{
    if ms.len() == 0 {
        RunOutcome::Pending(acc, st)
    } else if ms[0] is EndOfMeasurements {
        RunOutcome::Done(acc)
    } else {
        match spec_step(st, ms[0]) {
            Ok((st2, emitted)) => spec_run(ms.drop_first(), st2, acc + spec_emitted(emitted)),
            Err(e) => RunOutcome::Failed(e),
        }
    }
}

/// What reassembling a complete, closed stream of measurements yields:
/// the emitted records if the end-of-measurements marker arrived, the
/// protocol error if one occurred first, and an unexpected-end-of-stream
/// error if the stream ran out without the marker.
pub open spec fn spec_reassemble(ms: Seq<Measurement>) -> Result<Seq<Record>, Error> {
    match spec_run(ms, spec_empty_slots(), Seq::<Record>::empty()) {
        RunOutcome::Done(rs) => Ok(rs),
        RunOutcome::Failed(e) => Err(e),
        RunOutcome::Pending(_, _) => Err(Error::UnexpectedEndOfStream),
    }
}

/// Files one measurement into the window, emitting the combined record
/// when it completes the triple.
fn step_slots(st: &mut PendingSlots, m: Measurement) -> (r: Res<Option<Record>>)
    ensures
        (match r {
            Ok(emitted) => spec_step(*old(st), m) == Ok::<(PendingSlots, Option<Record>), Error>(
                (*final(st), emitted),
            ),
            Err(e) => spec_step(*old(st), m) == Err::<(PendingSlots, Option<Record>), Error>(e),
        }),
{
    match m {
        Measurement::Temp(ts, v) => {
            if st.temperature.is_some() {
                return Err(Error::DuplicateField(MeasurementKind::Temperature));
            }
            st.temperature = Some((ts, v));
        },
        Measurement::Hum(ts, v) => {
            if st.humidity.is_some() {
                return Err(Error::DuplicateField(MeasurementKind::Humidity));
            }
            st.humidity = Some((ts, v));
        },
        Measurement::AirPres(ts, v) => {
            if st.air_pressure.is_some() {
                return Err(Error::DuplicateField(MeasurementKind::AirPressure));
            }
            st.air_pressure = Some((ts, v));
        },
        Measurement::EndOfMeasurements => {
            return Ok(None);
        },
    }
    match (st.temperature, st.humidity, st.air_pressure) {
        (Some((tst, t)), Some((tsh, h)), Some((tsa, a))) => {
            if tst != tsh || tst != tsa {
                return Err(Error::ConflictingTimestamps);
            }
            *st = PendingSlots { temperature: None, humidity: None, air_pressure: None };
            Ok(
                Some(
                    Record {
                        datetime: tst,
                        temperature: t,
                        humidity: h,
                        air_pressure: a,
                    },
                ),
            )
        },
        _ => Ok(None),
    }
}

/// Reassembles a closed stream of log measurements into complete
/// records: merging by kind across any interleaving, failing on a
/// duplicate kind or a disagreeing timestamp, ending successfully only
/// at the end-of-measurements marker (a trailing partial triple is
/// discarded), and failing with an unexpected-end-of-stream error if
/// the stream ran out without the marker.
pub fn reassemble(ms: &[Measurement]) -> (r: Res<Vec<Record>>)
    ensures
        (match r {
            Ok(v) => spec_reassemble(ms@) == Ok::<Seq<Record>, Error>(v@),
            Err(e) => spec_reassemble(ms@) == Err::<Seq<Record>, Error>(e),
        }),
{
    let mut slots = PendingSlots { temperature: None, humidity: None, air_pressure: None };
    let mut records: Vec<Record> = Vec::new();
    let mut i: usize = 0;
    proof {
        assert(ms@.skip(0) =~= ms@);
    }
    while i < ms.len()
        invariant
            i <= ms@.len(),
            spec_run(ms@, spec_empty_slots(), Seq::<Record>::empty()) == spec_run(
                ms@.skip(i as int),
                slots,
                records@,
            ),
        decreases ms@.len() - i,
    {
        let m = ms[i];
        proof {
            assert(ms@.skip(i as int)[0] == ms@[i as int]);
            assert(ms@.skip(i as int).drop_first() =~= ms@.skip(i as int + 1));
        }
        if let Measurement::EndOfMeasurements = m {
            return Ok(records);
        }
        let ghost records_before = records@;
        match step_slots(&mut slots, m) {
            Ok(emitted) => {
                if let Some(rec) = emitted {
                    records.push(rec);
                }
                proof {
                    assert(records@ =~= records_before + spec_emitted(emitted));
                }
            },
            Err(e) => {
                return Err(e);
            },
        }
        i = i + 1;
    }
    proof {
        assert(ms@.skip(ms@.len() as int) =~= Seq::<Measurement>::empty());
    }
    Err(Error::UnexpectedEndOfStream)
}

/// Whether `(m1, m2, m3)` is some ordering of the three measurements
/// `(a, b, c)`.
pub open spec fn spec_triple_perm(
    m1: Measurement,
    m2: Measurement,
    m3: Measurement,
    a: Measurement,
    b: Measurement,
    c: Measurement,
) -> bool {
    ||| (m1 == a && m2 == b && m3 == c)
    ||| (m1 == a && m2 == c && m3 == b)
    ||| (m1 == b && m2 == a && m3 == c)
    ||| (m1 == b && m2 == c && m3 == a)
    ||| (m1 == c && m2 == a && m3 == b)
    ||| (m1 == c && m2 == b && m3 == a)
}

/// Reassembly is independent of arrival order: one measurement of each
/// kind at one shared timestamp, fed in any order and closed off by the
/// end-of-measurements marker, yields exactly the one combined record.
pub proof fn lemma_complete_triple_any_order(
    m1: Measurement,
    m2: Measurement,
    m3: Measurement,
    ts: u32,
    t: i32,
    h: u32,
    a: u32,
)
    requires
        spec_triple_perm(
            m1,
            m2,
            m3,
            Measurement::Temp(ts, t),
            Measurement::Hum(ts, h),
            Measurement::AirPres(ts, a),
        ),
    ensures
        spec_reassemble(seq![m1, m2, m3, Measurement::EndOfMeasurements]) == Ok::<
            Seq<Record>,
            Error,
        >(seq![Record { datetime: ts, temperature: t, humidity: h, air_pressure: a }]),
{
    let s = seq![m1, m2, m3, Measurement::EndOfMeasurements];
    let rec = Record { datetime: ts, temperature: t, humidity: h, air_pressure: a };
    reveal_with_fuel(spec_run, 5);
    assert(s.drop_first() =~= seq![m2, m3, Measurement::EndOfMeasurements]);
    assert(seq![m2, m3, Measurement::EndOfMeasurements].drop_first() =~= seq![
        m3,
        Measurement::EndOfMeasurements,
    ]);
    assert(seq![m3, Measurement::EndOfMeasurements].drop_first() =~= seq![
        Measurement::EndOfMeasurements,
    ]);
    assert(spec_run(s, spec_empty_slots(), Seq::<Record>::empty()) matches RunOutcome::Done(rs)
        && rs =~= seq![rec]);
}

/// The counterpart: one measurement of each kind, in any order, where
/// the timestamps do not all agree, fails the run with a
/// conflicting-timestamps error and emits no record.
pub proof fn lemma_conflicting_timestamps(
    m1: Measurement,
    m2: Measurement,
    m3: Measurement,
    tst: u32,
    tsh: u32,
    tsa: u32,
    t: i32,
    h: u32,
    a: u32,
)
    requires
        spec_triple_perm(
            m1,
            m2,
            m3,
            Measurement::Temp(tst, t),
            Measurement::Hum(tsh, h),
            Measurement::AirPres(tsa, a),
        ),
        !(tst == tsh && tst == tsa),
    ensures
        spec_reassemble(seq![m1, m2, m3, Measurement::EndOfMeasurements]) == Err::<
            Seq<Record>,
            Error,
        >(Error::ConflictingTimestamps),
{
    let s = seq![m1, m2, m3, Measurement::EndOfMeasurements];
    reveal_with_fuel(spec_run, 5);
    assert(s.drop_first() =~= seq![m2, m3, Measurement::EndOfMeasurements]);
    assert(seq![m2, m3, Measurement::EndOfMeasurements].drop_first() =~= seq![
        m3,
        Measurement::EndOfMeasurements,
    ]);
    assert(seq![m3, Measurement::EndOfMeasurements].drop_first() =~= seq![
        Measurement::EndOfMeasurements,
    ]);
    assert(spec_run(s, spec_empty_slots(), Seq::<Record>::empty()) == RunOutcome::Failed(
        Error::ConflictingTimestamps,
    ));
}

/// A second measurement of a kind whose slot is still occupied fails
/// the run at once with a duplicate-field error, whatever follows.
pub proof fn lemma_duplicate_field(ms: Seq<Measurement>, ts1: u32, v1: i32, ts2: u32, v2: i32)
    requires
        ms.len() >= 2,
        ms[0] == Measurement::Temp(ts1, v1),
        ms[1] == Measurement::Temp(ts2, v2),
    ensures
        spec_reassemble(ms) == Err::<Seq<Record>, Error>(
            Error::DuplicateField(MeasurementKind::Temperature),
        ),
{
    reveal_with_fuel(spec_run, 3);
    assert(ms.drop_first()[0] == ms[1]);
    assert(ms.drop_first().len() >= 1);
}

/// A run over a stream that holds no end-of-measurements marker never
/// terminates successfully.
proof fn lemma_run_no_end(ms: Seq<Measurement>, st: PendingSlots, acc: Seq<Record>)
    requires
        forall|j: int| 0 <= j < ms.len() ==> !(ms[j] is EndOfMeasurements),
    ensures
        !(spec_run(ms, st, acc) is Done),
    decreases ms.len(),
{
    if ms.len() > 0 {
        assert(!(ms[0] is EndOfMeasurements));
        match spec_step(st, ms[0]) {
            Ok((st2, emitted)) => {
                assert forall|j: int| 0 <= j < ms.drop_first().len() implies !(
                ms.drop_first()[j] is EndOfMeasurements) by {
                    assert(ms.drop_first()[j] == ms[j + 1]);
                }
                lemma_run_no_end(ms.drop_first(), st2, acc + spec_emitted(emitted));
            },
            Err(e) => {
            },
        }
    }
}

/// A stream of frames that closes without ever delivering the
/// end-of-measurements marker fails: with the protocol error that ended
/// the run, or — if every step filed cleanly — with an
/// unexpected-end-of-stream error.  Only the marker ends a run
/// successfully, never the closing of the stream.
pub proof fn lemma_missing_end_marker(ms: Seq<Measurement>)
    requires
        forall|j: int| 0 <= j < ms.len() ==> !(ms[j] is EndOfMeasurements),
    ensures
        spec_reassemble(ms) is Err,
        spec_run(ms, spec_empty_slots(), Seq::<Record>::empty()) is Pending
            ==> spec_reassemble(ms) == Err::<Seq<Record>, Error>(Error::UnexpectedEndOfStream),
{
    lemma_run_no_end(ms, spec_empty_slots(), Seq::<Record>::empty());
}

/// Appending the end-of-measurements marker to a stream whose run is
/// still pending ends the run successfully with the records emitted so
/// far: whatever partial triple the window still holds is discarded.
proof fn lemma_run_push_end(ms: Seq<Measurement>, st: PendingSlots, acc: Seq<Record>)
    requires
        spec_run(ms, st, acc) is Pending,
    ensures
        spec_run(ms.push(Measurement::EndOfMeasurements), st, acc) == RunOutcome::Done(
            spec_run(ms, st, acc)->Pending_0,
        ),
    decreases ms.len(),
{
    let s2 = ms.push(Measurement::EndOfMeasurements);
    if ms.len() == 0 {
        assert(s2.len() == 1);
        assert(s2[0] is EndOfMeasurements);
    } else {
        assert(s2[0] == ms[0]);
        match spec_step(st, ms[0]) {
            Ok((st2, emitted)) => {
                assert(s2.drop_first() =~= ms.drop_first().push(Measurement::EndOfMeasurements));
                lemma_run_push_end(ms.drop_first(), st2, acc + spec_emitted(emitted));
            },
            Err(e) => {
                assert(false);
            },
        }
    }
}

/// A stream that sends the end-of-measurements marker after a clean but
/// incomplete run — a partial one- or two-field triple still pending —
/// terminates successfully, the partial triple silently dropped.
pub proof fn lemma_end_drops_partial(ms: Seq<Measurement>)
    requires
        spec_run(ms, spec_empty_slots(), Seq::<Record>::empty()) is Pending,
    ensures
        spec_reassemble(ms.push(Measurement::EndOfMeasurements)) == Ok::<Seq<Record>, Error>(
            spec_run(ms, spec_empty_slots(), Seq::<Record>::empty())->Pending_0,
        ),
{
    lemma_run_push_end(ms, spec_empty_slots(), Seq::<Record>::empty());
}

} // verus!
