//! Error type shared by the decoders, and the rendering of diagnostic
//! messages.
//!
//! Every error carries the field it is about or the offending raw value,
//! so a caller can log or report it without re-parsing anything.  The
//! textual form is produced by [`Error::message`], whose output is pinned
//! down character by character by [`Error::spec_message`].

use vstd::prelude::*;
use vstd::string::StringExecFns;

verus! {

/// A field of the 24-byte live-advertisement payload, used to name the
/// field a decode error is about.
#[derive(Clone, Copy, Debug, PartialEq, Eq)]
pub enum Field {
    Version,
    Temperature,
    Humidity,
    AirPressure,
    Acceleration,
    Power,
    Movement,
    MeasurementSeq,
    Mac,
}

impl Field {
    /// The field's name as it appears in diagnostic messages.
    pub open spec fn spec_name(self) -> Seq<char> {
        match self {
            Field::Version => "version"@,
            Field::Temperature => "temperature"@,
            Field::Humidity => "humidity"@,
            Field::AirPressure => "air_pressure"@,
            Field::Acceleration => "acceleration"@,
            Field::Power => "voltage and transmission power"@,
            Field::Movement => "movement"@,
            Field::MeasurementSeq => "measurement"@,
            Field::Mac => "mac address"@,
        }
    }

    /// The field's name, for diagnostic messages.
    pub fn name_str(&self) -> (r: &'static str)
        ensures
            r@ == self.spec_name(),
    {
        match self {
            Field::Version => "version",
            Field::Temperature => "temperature",
            Field::Humidity => "humidity",
            Field::AirPressure => "air_pressure",
            Field::Acceleration => "acceleration",
            Field::Power => "voltage and transmission power",
            Field::Movement => "movement",
            Field::MeasurementSeq => "measurement",
            Field::Mac => "mac address",
        }
    }
}

/// The kind of a single-value log measurement, used to name the slot a
/// reassembly error is about.
#[derive(Clone, Copy, Debug, PartialEq, Eq)]
pub enum MeasurementKind {
    Temperature,
    Humidity,
    AirPressure,
}

impl MeasurementKind {
    /// The kind's name as it appears in diagnostic messages.
    pub open spec fn spec_name(self) -> Seq<char> {
        match self {
            MeasurementKind::Temperature => "temperature"@,
            MeasurementKind::Humidity => "humidity"@,
            MeasurementKind::AirPressure => "air pressure"@,
        }
    }

    /// The kind's name, for diagnostic messages.
    pub fn name_str(&self) -> (r: &'static str)
        ensures
            r@ == self.spec_name(),
    {
        match self {
            MeasurementKind::Temperature => "temperature",
            MeasurementKind::Humidity => "humidity",
            MeasurementKind::AirPressure => "air pressure",
        }
    }
}

/// Everything that can go wrong while decoding a payload, building a log
/// request, or reassembling log measurements into records.
#[derive(Clone, Copy, Debug, PartialEq, Eq)]
pub enum Error {
    /// The buffer ran out before the named advertisement field was complete.
    MissingField(Field),
    /// The named advertisement field held its "sensor unavailable" sentinel
    /// bit pattern.
    InvalidField(Field),
    /// The advertisement's version byte was not 5; carries the actual byte.
    InvalidVersion(u8),
    /// The 11-bit voltage sub-field held its sentinel value 2047.
    InvalidVoltage,
    /// The 5-bit transmission-power sub-field held its sentinel value 31.
    InvalidTxPower,
    /// A log notification frame was not 11 bytes long; carries the length.
    BadLength(usize),
    /// A log notification frame did not start with the header byte 0x3A.
    BadHeader(u8),
    /// A log notification frame's action byte was not the read action 0x10.
    BadAction(u8),
    /// A log notification frame carried an unknown measurement tag.
    UnknownKind(u8),
    /// A log notification frame's timestamp had no calendar mapping.
    /// Every unsigned 32-bit seconds value maps, so the frame decoders
    /// never produce this; it stands for the protocol's own notion of an
    /// unmappable timestamp.
    InvalidTimestamp(u32),
    /// An epoch-seconds value did not fit in a signed 32-bit integer.
    TimestampOverflow(i64),
    /// A measurement arrived for a slot that was already occupied.
    DuplicateField(MeasurementKind),
    /// The three measurements of a record did not share one timestamp.
    ConflictingTimestamps,
    /// Three measurements did not hold one of each kind.
    InvalidTriple,
    /// A chunk of measurements did not hold exactly three of them.
    InvalidChunk(usize),
    /// The frame stream closed without an end-of-measurements frame.
    UnexpectedEndOfStream,
}

/// The result type used throughout the crate.
pub type Res<T> = Result<T, Error>;

/// The canonical decimal rendering of a natural number.
pub open spec fn spec_dec(n: nat) -> Seq<char>
    decreases n,
{
    if n < 10 {
        seq![spec_digit(n as int)]
    } else {
        spec_dec((n / 10) as nat).push(spec_digit((n % 10) as int))
    }
}

/// The digit character for a value below ten.
pub open spec fn spec_digit(d: int) -> char {
    if d == 0 { '0' }
    else if d == 1 { '1' }
    else if d == 2 { '2' }
    else if d == 3 { '3' }
    else if d == 4 { '4' }
    else if d == 5 { '5' }
    else if d == 6 { '6' }
    else if d == 7 { '7' }
    else if d == 8 { '8' }
    else { '9' }
}

/// The decimal rendering of a signed value: a minus sign before the
/// magnitude for negative values.
pub open spec fn spec_dec_signed(n: int) -> Seq<char> {
    if n >= 0 {
        spec_dec(n as nat)
    } else {
        seq!['-'] + spec_dec((-n) as nat)
    }
}

/// The lower-case hexadecimal rendering of a byte, without leading zeroes,
/// as the `{:x}` format writes it.
pub open spec fn spec_hex_byte(n: nat) -> Seq<char> {
    if n < 16 {
        seq![spec_hex_digit(n as int)]
    } else {
        seq![spec_hex_digit(n as int / 16), spec_hex_digit(n as int % 16)]
    }
}

/// The hexadecimal digit character for a value below sixteen.
pub open spec fn spec_hex_digit(d: int) -> char {
    if d < 10 { spec_digit(d) }
    else if d == 10 { 'a' }
    else if d == 11 { 'b' }
    else if d == 12 { 'c' }
    else if d == 13 { 'd' }
    else if d == 14 { 'e' }
    else { 'f' }
}

fn digit_str(d: u8) -> (r: &'static str)
    requires
        d < 10,
    ensures
        r@ == seq![spec_digit(d as int)],
{
    proof {
        reveal_strlit("0");
        reveal_strlit("1");
        reveal_strlit("2");
        reveal_strlit("3");
        reveal_strlit("4");
        reveal_strlit("5");
        reveal_strlit("6");
        reveal_strlit("7");
        reveal_strlit("8");
        reveal_strlit("9");
        assert("0"@ =~= seq![spec_digit(0)]);
        assert("1"@ =~= seq![spec_digit(1)]);
        assert("2"@ =~= seq![spec_digit(2)]);
        assert("3"@ =~= seq![spec_digit(3)]);
        assert("4"@ =~= seq![spec_digit(4)]);
        assert("5"@ =~= seq![spec_digit(5)]);
        assert("6"@ =~= seq![spec_digit(6)]);
        assert("7"@ =~= seq![spec_digit(7)]);
        assert("8"@ =~= seq![spec_digit(8)]);
        assert("9"@ =~= seq![spec_digit(9)]);
    }
    match d {
        0 => "0",
        1 => "1",
        2 => "2",
        3 => "3",
        4 => "4",
        5 => "5",
        6 => "6",
        7 => "7",
        8 => "8",
        _ => "9",
    }
}

fn hex_digit_str(d: u8) -> (r: &'static str)
    requires
        d < 16,
    ensures
        r@ == seq![spec_hex_digit(d as int)],
{
    if d < 10 {
        digit_str(d)
    } else {
        proof {
            reveal_strlit("a");
            reveal_strlit("b");
            reveal_strlit("c");
            reveal_strlit("d");
            reveal_strlit("e");
            reveal_strlit("f");
            assert("a"@ =~= seq![spec_hex_digit(10)]);
            assert("b"@ =~= seq![spec_hex_digit(11)]);
            assert("c"@ =~= seq![spec_hex_digit(12)]);
            assert("d"@ =~= seq![spec_hex_digit(13)]);
            assert("e"@ =~= seq![spec_hex_digit(14)]);
            assert("f"@ =~= seq![spec_hex_digit(15)]);
        }
        match d {
            10 => "a",
            11 => "b",
            12 => "c",
            13 => "d",
            14 => "e",
            _ => "f",
        }
    }
}

/// Appends the decimal rendering of `n` to `s`.
fn push_dec(s: &mut String, n: u64)
    ensures
        final(s)@ == old(s)@ + spec_dec(n as nat),
    decreases n,
{
    if n >= 10 {
        proof {
            assert(n / 10 < n) by (nonlinear_arith)
                requires n >= 10;
        }
        push_dec(s, n / 10);
    }
    let d = (n % 10) as u8;
    s.append(digit_str(d));
    proof {
        assert(s@ =~= old(s)@ + spec_dec(n as nat));
    }
}

/// Appends the decimal rendering of a signed value to `s`.
fn push_dec_signed(s: &mut String, n: i64)
    ensures
        final(s)@ == old(s)@ + spec_dec_signed(n as int),
{
    if n >= 0 {
        push_dec(s, n as u64);
    } else {
        proof {
            reveal_strlit("-");
            assert("-"@ =~= seq!['-']);
        }
        s.append("-");
        let m: u64 = (-(n as i128)) as u64;
        push_dec(s, m);
        proof {
            assert(s@ =~= old(s)@ + spec_dec_signed(n as int));
        }
    }
}

/// Appends the hexadecimal rendering of a byte to `s`.
fn push_hex_byte(s: &mut String, n: u8)
    ensures
        final(s)@ == old(s)@ + spec_hex_byte(n as nat),
{
    if n >= 16 {
        s.append(hex_digit_str(n / 16));
    }
    s.append(hex_digit_str(n % 16));
    proof {
        assert(s@ =~= old(s)@ + spec_hex_byte(n as nat));
    }
}

impl Error {
    /// The diagnostic message of the error, character by character.
    pub open spec fn spec_message(self) -> Seq<char> {
        match self {
            Error::MissingField(f) => "No "@ + f.spec_name() + " data."@,
            Error::InvalidField(f) => "Invalid "@ + f.spec_name() + "."@,
            Error::InvalidVersion(v) => "Invalid version "@ + spec_dec(v as nat) + "."@,
            Error::InvalidVoltage => "Invalid voltage 2047"@,
            Error::InvalidTxPower => "Invalid transmission power 31"@,
            Error::BadLength(n) => "payload length should be 11 (was "@ + spec_dec(n as nat)
                + ")"@,
            Error::BadHeader(b) => "header should start with 0x3A (was 0x"@
                + spec_hex_byte(b as nat) + ")"@,
            Error::BadAction(b) => "action should be read (0x10, was 0x"@
                + spec_hex_byte(b as nat) + ")"@,
            Error::UnknownKind(b) => "invalid observation type "@ + spec_hex_byte(b as nat),
            Error::InvalidTimestamp(t) => "invalid timestamp "@ + spec_dec(t as nat),
            Error::TimestampOverflow(t) => "timestamp "@ + spec_dec_signed(t as int)
                + " does not fit in 32 bits"@,
            Error::DuplicateField(k) => "trying to add "@ + k.spec_name()
                + " while it already exists"@,
            Error::ConflictingTimestamps => "conflicting timestamps"@,
            Error::InvalidTriple => "not a valid measurement triplet"@,
            Error::InvalidChunk(n) => "Invalid chunk of size "@ + spec_dec(n as nat),
            Error::UnexpectedEndOfStream => "unexpected end of stream"@,
        }
    }

    /// Renders the diagnostic message of the error.
    pub fn message(&self) -> (r: String)
        ensures
            r@ == self.spec_message(),
    {
        let mut s = String::new();
        match self {
            Error::MissingField(f) => {
                s.append("No ");
                s.append(f.name_str());
                s.append(" data.");
            },
            Error::InvalidField(f) => {
                s.append("Invalid ");
                s.append(f.name_str());
                s.append(".");
            },
            Error::InvalidVersion(v) => {
                s.append("Invalid version ");
                push_dec(&mut s, *v as u64);
                s.append(".");
            },
            Error::InvalidVoltage => {
                s.append("Invalid voltage 2047");
            },
            Error::InvalidTxPower => {
                s.append("Invalid transmission power 31");
            },
            Error::BadLength(n) => {
                s.append("payload length should be 11 (was ");
                push_dec(&mut s, *n as u64);
                s.append(")");
            },
            Error::BadHeader(b) => {
                s.append("header should start with 0x3A (was 0x");
                push_hex_byte(&mut s, *b);
                s.append(")");
            },
            Error::BadAction(b) => {
                s.append("action should be read (0x10, was 0x");
                push_hex_byte(&mut s, *b);
                s.append(")");
            },
            Error::UnknownKind(b) => {
                s.append("invalid observation type ");
                push_hex_byte(&mut s, *b);
            },
            Error::InvalidTimestamp(t) => {
                s.append("invalid timestamp ");
                push_dec(&mut s, *t as u64);
            },
            Error::TimestampOverflow(t) => {
                s.append("timestamp ");
                push_dec_signed(&mut s, *t);
                s.append(" does not fit in 32 bits");
            },
            Error::DuplicateField(k) => {
                s.append("trying to add ");
                s.append(k.name_str());
                s.append(" while it already exists");
            },
            Error::ConflictingTimestamps => {
                s.append("conflicting timestamps");
            },
            Error::InvalidTriple => {
                s.append("not a valid measurement triplet");
            },
            Error::InvalidChunk(n) => {
                s.append("Invalid chunk of size ");
                push_dec(&mut s, *n as u64);
            },
            Error::UnexpectedEndOfStream => {
                s.append("unexpected end of stream");
            },
        }
        proof {
            assert(s@ =~= self.spec_message());
        }
        s
    }
}

} // verus!
