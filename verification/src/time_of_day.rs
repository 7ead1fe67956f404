use chrono::format::ParseErrorKind;
use chrono::{NaiveTime, Timelike};
use vstd::prelude::*;

verus! {

/// The number of seconds in a day.
pub const SECONDS_PER_DAY: u32 = 86_400;

/// The number of milliseconds in a second.
pub const MILLIS_PER_SECOND: u32 = 1_000;

/// The number of nanoseconds in a millisecond.
pub const NANOS_PER_MILLI: u32 = 1_000_000;

/// The bound of the nanoseconds of a time of day: below two seconds, of
/// which the second one stands for a leap second.
pub const NANOS_LIMIT: u32 = 2_000_000_000;

/// The number of formats in which a time of day is looked for.
pub const FORMAT_COUNT: usize = 12;

/// Why a text was not read as a time of day in some format.
#[derive(Clone, Copy, Debug, PartialEq, Eq, Structural)]
pub enum TimeParseError {
    /// A field is out of its permitted range.
    OutOfRange,
    /// The fields contradict each other.
    Impossible,
    /// The fields do not make up a time of day.
    NotEnough,
    /// The text has characters that the format does not allow.
    Invalid,
    /// The text ended before the format did.
    TooShort,
    /// The format ended before the text did.
    TooLong,
    /// The format itself is not understood.
    BadFormat,
}

impl TimeParseError {
    /// What `message` says of each error.
    pub open spec fn message_text(self) -> Seq<char> {
        match self {
            TimeParseError::OutOfRange => "a field of the time is out of its range"@,
            TimeParseError::Impossible => "the fields of the time contradict each other"@,
            TimeParseError::NotEnough => "the text does not hold a whole time of day"@,
            TimeParseError::Invalid => "the text has a character where the format allows none"@,
            TimeParseError::TooShort => "the text ends before the time does"@,
            TimeParseError::TooLong => "the text goes on after the time"@,
            TimeParseError::BadFormat => "the format is not understood"@,
        }
    }

    /// A sentence that says why the text was not read.
    pub fn message(&self) -> (text: &'static str)
        ensures
            text@ == self.message_text(),
    {
        match self {
            TimeParseError::OutOfRange => "a field of the time is out of its range",
            TimeParseError::Impossible => "the fields of the time contradict each other",
            TimeParseError::NotEnough => "the text does not hold a whole time of day",
            TimeParseError::Invalid => "the text has a character where the format allows none",
            TimeParseError::TooShort => "the text ends before the time does",
            TimeParseError::TooLong => "the text goes on after the time",
            TimeParseError::BadFormat => "the format is not understood",
        }
    }
}

/// A time of day, as contracts speak of it: whole seconds since midnight
/// and nanoseconds since the whole second.
pub struct DayTime {
    pub seconds: nat,
    pub nanos: nat,
}

impl DayTime {
    /// A time of day lies within the day; its nanoseconds may run into a
    /// leap second, but no further.
    pub open spec fn wf(self) -> bool {
        self.seconds < SECONDS_PER_DAY && self.nanos < NANOS_LIMIT
    }

    /// The whole milliseconds since midnight.
    pub open spec fn millis(self) -> nat {
        self.seconds * (MILLIS_PER_SECOND as nat) + self.nanos / (NANOS_PER_MILLI as nat)
    }
}

/// A time of day: whole seconds since midnight and nanoseconds since the
/// whole second.
#[derive(Clone, Copy, Debug, PartialEq, Eq)]
pub struct TimeOfDay {
    seconds: u32,
    nanos: u32,
}

impl View for TimeOfDay {
    type V = DayTime;

    closed spec fn view(&self) -> DayTime {
        DayTime { seconds: self.seconds as nat, nanos: self.nanos as nat }
    }
}

impl TimeOfDay {
    #[verifier::type_invariant]
    spec fn within_the_day(self) -> bool {
        self.seconds < SECONDS_PER_DAY && self.nanos < NANOS_LIMIT
    }

    /// The time of day `seconds` whole seconds and `nanos` nanoseconds
    /// after midnight, if that lies within the day.
    pub fn new(seconds: u32, nanos: u32) -> (made: Option<TimeOfDay>)
        ensures
            made is Some <==> (DayTime { seconds: seconds as nat, nanos: nanos as nat }).wf(),
            made is Some ==> made->Some_0@ == (DayTime {
                seconds: seconds as nat,
                nanos: nanos as nat,
            }),
    {
        if seconds < SECONDS_PER_DAY && nanos < NANOS_LIMIT {
            Some(TimeOfDay { seconds, nanos })
        } else {
            None
        }
    }

    /// The whole seconds since midnight.
    pub fn seconds(&self) -> (seconds: u32)
        ensures
            seconds == self@.seconds,
            seconds < SECONDS_PER_DAY,
    {
        proof {
            use_type_invariant(self);
        }
        self.seconds
    }

    /// The nanoseconds since the whole second.
    pub fn nanos(&self) -> (nanos: u32)
        ensures
            nanos == self@.nanos,
            nanos < NANOS_LIMIT,
    {
        proof {
            use_type_invariant(self);
        }
        self.nanos
    }

    /// The whole milliseconds since midnight: a thousand for each second,
    /// and one for each full million of nanoseconds.
    pub fn millis(&self) -> (ms: u32)
        ensures
            ms == self@.millis(),
    {
        proof {
            use_type_invariant(self);
        }
        self.seconds * MILLIS_PER_SECOND + self.nanos / NANOS_PER_MILLI
    }
}

/// What `chrono::NaiveTime::parse_from_str` makes of the text `when` in
/// the format `format`: the seconds since midnight and the nanoseconds of
/// the time it read, or the kind of the error it gave.
pub uninterp spec fn parsed_time(when: Seq<char>, format: Seq<char>) -> Result<
    (u32, u32),
    TimeParseError,
>;

/// Reads `when` in `format` with `chrono::NaiveTime::parse_from_str`. A
/// time that was read is handed out as its `num_seconds_from_midnight`
/// and its `nanosecond`; the outside crate keeps the first below the
/// seconds of a day and the second below two thousand million. An error
/// is handed out as its `kind`. The outcome depends on the two texts
/// alone.
#[verifier::external_body]
fn parse_time(when: &str, format: &str) -> (outcome: Result<(u32, u32), TimeParseError>)
    ensures
        outcome == parsed_time(when@, format@),
        outcome matches Ok(parts) ==> parts.0 < SECONDS_PER_DAY && parts.1 < NANOS_LIMIT,
{
    match NaiveTime::parse_from_str(when, format) {
        Ok(time) => Ok((time.num_seconds_from_midnight(), time.nanosecond())),
        Err(error) => Err(match error.kind() {
            ParseErrorKind::OutOfRange => TimeParseError::OutOfRange,
            ParseErrorKind::Impossible => TimeParseError::Impossible,
            ParseErrorKind::NotEnough => TimeParseError::NotEnough,
            ParseErrorKind::Invalid => TimeParseError::Invalid,
            ParseErrorKind::TooShort => TimeParseError::TooShort,
            ParseErrorKind::TooLong => TimeParseError::TooLong,
            _ => TimeParseError::BadFormat,
        }),
    }
}

/// What reading `when` in `format` comes to: the time of day that was
/// read, or the kind of the error.
pub open spec fn reading(when: Seq<char>, format: Seq<char>) -> Result<DayTime, TimeParseError> {
    match parsed_time(when, format) {
        Ok(parts) => Ok(DayTime { seconds: parts.0 as nat, nanos: parts.1 as nat }),
        Err(error) => Err(error),
    }
}

/// Whether `outcome` is `expected`, the time of day taken by its view.
pub open spec fn is_reading(
    outcome: Result<TimeOfDay, TimeParseError>,
    expected: Result<DayTime, TimeParseError>,
) -> bool {
    match outcome {
        Ok(time) => expected == Ok::<DayTime, TimeParseError>(time@),
        Err(error) => expected == Err::<DayTime, TimeParseError>(error),
    }
}

/// Reads the text `when` as a time of day in the one format `format`.
pub fn parse_in_format(when: &str, format: &str) -> (outcome: Result<TimeOfDay, TimeParseError>)
    ensures
        is_reading(outcome, reading(when@, format@)),
{
    match parse_time(when, format) {
        Ok(parts) => Ok(TimeOfDay { seconds: parts.0, nanos: parts.1 }),
        Err(error) => Err(error),
    }
}

/// The formats in which a time of day is looked for, in the order in
/// which they are tried.
pub open spec fn time_formats() -> Seq<Seq<char>> {
    seq![
        "%T"@,
        "%R"@,
        "%r"@,
        "%I:%M %p"@,
        "%Hh %Mm %Ss"@,
        "%Hh %Mm"@,
        "%Hh"@,
        "%I%M %p"@,
        "%I %p"@,
        "%H%M"@,
        "%+"@,
        "%c"@,
    ]
}

/// The format that is tried at the place `index`.
pub fn time_format(index: usize) -> (format: &'static str)
    requires
        index < FORMAT_COUNT,
    ensures
        format@ == time_formats()[index as int],
{
    match index {
        0 => "%T",  // 00:34:60
        1 => "%R",  // 00:35
        2 => "%r",  // 12:34:60 AM
        3 => "%I:%M %p",  // 12:35 AM
        4 => "%Hh %Mm %Ss",  // 12h 34m 60s
        5 => "%Hh %Mm",  // 12h 35m
        6 => "%Hh",  // 12h
        7 => "%I%M %p",  // 1235am
        8 => "%I %p",  // 12am
        9 => "%H%M",  // 1235
        10 => "%+",  // 2001-07-08T00:34:60.026490+09:30
        _ => "%c",  // Sun Jul 8 00:34:60 2001
    }
}

/// What reading `when` in each of `formats` in turn comes to: the time of
/// the first format that reads one, and where none does, the error of the
/// last format.
pub open spec fn first_reading(when: Seq<char>, formats: Seq<Seq<char>>) -> Result<
    DayTime,
    TimeParseError,
>
    recommends
        formats.len() > 0,
    decreases formats.len(),
{
    if formats.len() <= 1 || reading(when, formats.first()) is Ok {
        reading(when, formats.first())
    } else {
        first_reading(when, formats.drop_first())
    }
}

/// Reads a time of day that a user wrote. The formats are tried in their
/// order and the first that reads a time decides; where none does, the
/// error of the last one is returned.
pub fn attempt_parse_time_since_midnight(when: &str) -> (outcome: Result<
    TimeOfDay,
    TimeParseError,
>)
    ensures
        is_reading(outcome, first_reading(when@, time_formats())),
{
    let mut index: usize = 0;
    let mut outcome = parse_in_format(when, time_format(0));
    assert(time_formats().skip(0) =~= time_formats());
    while outcome.is_err() && index + 1 < FORMAT_COUNT
        invariant
            index < FORMAT_COUNT,
            time_formats().len() == FORMAT_COUNT,
            is_reading(outcome, reading(when@, time_formats()[index as int])),
            first_reading(when@, time_formats()) == first_reading(
                when@,
                time_formats().skip(index as int),
            ),
        decreases FORMAT_COUNT - index,
    {
        proof {
            let rest = time_formats().skip(index as int);
            assert(rest.first() == time_formats()[index as int]);
            assert(rest.drop_first() =~= time_formats().skip(index + 1));
        }
        index = index + 1;
        outcome = parse_in_format(when, time_format(index));
    }
    proof {
        let rest = time_formats().skip(index as int);
        assert(rest.first() == time_formats()[index as int]);
        assert(rest.len() == FORMAT_COUNT - index);
    }
    outcome
}

} // verus!
