use mixed_radix_clock::time_of_day::{parse_in_format, time_format, FORMAT_COUNT};
use mixed_radix_clock::{
    attempt_parse_time_since_midnight, misalian_kunimunean_time_formatter, Form, TimeOfDay,
    TimeParseError,
};

fn millis_of(when: &str) -> Option<u32> {
    attempt_parse_time_since_midnight(when).ok().map(|time| time.millis())
}

#[test]
fn a_time_of_day_in_milliseconds() {
    assert_eq!(TimeOfDay::new(0, 0).unwrap().millis(), 0);
    assert_eq!(TimeOfDay::new(1, 0).unwrap().millis(), 1_000);
    assert_eq!(TimeOfDay::new(0, 999_999).unwrap().millis(), 0);
    assert_eq!(TimeOfDay::new(0, 1_000_000).unwrap().millis(), 1);
    assert_eq!(TimeOfDay::new(2_096, 26_490_000).unwrap().millis(), 2_096_026);
    assert_eq!(TimeOfDay::new(86_399, 999_999_999).unwrap().millis(), 86_399_999);
    // within a leap second
    assert_eq!(TimeOfDay::new(86_399, 1_999_999_999).unwrap().millis(), 86_400_999);
}

#[test]
fn a_time_of_day_lies_within_the_day() {
    assert!(TimeOfDay::new(86_399, 0).is_some());
    assert!(TimeOfDay::new(86_400, 0).is_none());
    assert!(TimeOfDay::new(0, 1_999_999_999).is_some());
    assert!(TimeOfDay::new(0, 2_000_000_000).is_none());
    assert!(TimeOfDay::new(u32::MAX, u32::MAX).is_none());
    let time = TimeOfDay::new(45_296, 7).unwrap();
    assert_eq!((time.seconds(), time.nanos()), (45_296, 7));
}

#[test]
fn the_formats_in_their_order() {
    let formats: Vec<&str> = (0..FORMAT_COUNT).map(time_format).collect();
    assert_eq!(
        formats,
        [
            "%T",
            "%R",
            "%r",
            "%I:%M %p",
            "%Hh %Mm %Ss",
            "%Hh %Mm",
            "%Hh",
            "%I%M %p",
            "%I %p",
            "%H%M",
            "%+",
            "%c",
        ]
    );
}

#[test]
fn times_in_one_format() {
    let read = |when, format| parse_in_format(when, format).map(|time| time.millis());
    assert_eq!(read("23:56:04", "%H:%M:%S"), Ok(86_164_000));
    assert_eq!(read("pm012345.6789", "%p%I%M%S%.f"), Ok(48_225_678));
    assert_eq!(read("7:15", "%H:%M"), Ok(26_100_000));
    assert_eq!(read("2014-5-17T12:34:56+09:30", "%Y-%m-%dT%H:%M:%S%z"), Ok(45_296_000));
    // a leap second counts on from the second before it
    assert_eq!(read("08:59:60.123", "%H:%M:%S%.f"), Ok(32_400_123));
    let leap = parse_in_format("08:59:60.123", "%H:%M:%S%.f").unwrap();
    assert_eq!((leap.seconds(), leap.nanos()), (32_399, 1_123_000_000));
}

#[test]
fn errors_in_one_format() {
    let read = |when, format| parse_in_format(when, format).err();
    assert_eq!(read("17:60", "%H:%M"), Some(TimeParseError::OutOfRange));
    assert_eq!(read("24:00:00", "%H:%M:%S"), Some(TimeParseError::OutOfRange));
    assert_eq!(read("13:07 AM", "%H:%M %p"), Some(TimeParseError::Impossible));
    assert_eq!(read("04m33s", "%Mm%Ss"), Some(TimeParseError::NotEnough));
    assert_eq!(read("12", "%H"), Some(TimeParseError::NotEnough));
    assert_eq!(read("ab:cd", "%H:%M"), Some(TimeParseError::Invalid));
    assert_eq!(read("12:3", "%H:%M:%S"), Some(TimeParseError::TooShort));
    assert_eq!(read("", "%H:%M"), Some(TimeParseError::TooShort));
    assert_eq!(read("12:34:56 and more", "%H:%M:%S"), Some(TimeParseError::TooLong));
    assert_eq!(read("12:34", "%H:%M%"), Some(TimeParseError::BadFormat));
}

#[test]
fn times_that_a_user_writes() {
    assert_eq!(millis_of("00:34:56"), Some(2_096_000));
    assert_eq!(millis_of("23:59:59"), Some(86_399_000));
    assert_eq!(millis_of("00:35"), Some(2_100_000));
    assert_eq!(millis_of("12:34:56 AM"), Some(2_096_000));
    assert_eq!(millis_of("12:34:56 PM"), Some(45_296_000));
    assert_eq!(millis_of("12:35 AM"), Some(2_100_000));
    assert_eq!(millis_of("4:05 pm"), Some(57_900_000));
    assert_eq!(millis_of("12h 34m 56s"), Some(45_296_000));
    assert_eq!(millis_of("12h 35m"), Some(45_300_000));
    assert_eq!(millis_of("1235"), Some(45_300_000));
    assert_eq!(millis_of("2001-07-08T00:34:56.026490+09:30"), Some(2_096_026));
    assert_eq!(millis_of("Sun Jul 8 00:34:56 2001"), Some(2_096_000));
    // a leap second
    assert_eq!(millis_of("00:34:60"), Some(2_100_000));
}

#[test]
fn the_first_format_that_reads_decides() {
    // "%T" reads this; "%H%M" and the rest are never asked
    let time = attempt_parse_time_since_midnight("01:02:03").unwrap();
    assert_eq!(Ok(time), parse_in_format("01:02:03", time_format(0)));
    // "%T" does not read this, "%R" does
    assert!(parse_in_format("01:02", time_format(0)).is_err());
    let time = attempt_parse_time_since_midnight("01:02").unwrap();
    assert_eq!(Ok(time), parse_in_format("01:02", time_format(1)));
}

#[test]
fn the_error_is_that_of_the_last_format() {
    for when in ["", "not a time", "25:00", "12h", "99", "Sun Jul 8", "12:34:56 and more"] {
        let error = attempt_parse_time_since_midnight(when).unwrap_err();
        for index in 0..FORMAT_COUNT {
            assert!(parse_in_format(when, time_format(index)).is_err());
        }
        assert_eq!(Err(error), parse_in_format(when, time_format(FORMAT_COUNT - 1)));
    }
    assert_eq!(
        attempt_parse_time_since_midnight("not a time"),
        Err(TimeParseError::Invalid)
    );
    assert_eq!(attempt_parse_time_since_midnight(""), Err(TimeParseError::TooShort));
}

#[test]
fn errors_say_what_was_wrong() {
    assert_eq!(TimeParseError::OutOfRange.message(), "a field of the time is out of its range");
    assert_eq!(TimeParseError::Impossible.message(), "the fields of the time contradict each other");
    assert_eq!(TimeParseError::NotEnough.message(), "the text does not hold a whole time of day");
    assert_eq!(TimeParseError::Invalid.message(), "the text has a character where the format allows none");
    assert_eq!(TimeParseError::TooShort.message(), "the text ends before the time does");
    assert_eq!(TimeParseError::TooLong.message(), "the text goes on after the time");
    assert_eq!(TimeParseError::BadFormat.message(), "the format is not understood");
}

#[test]
fn a_time_that_was_read_is_rendered() {
    let time = attempt_parse_time_since_midnight("13:12:01").unwrap();
    assert_eq!(time.millis(), 47_521_000);
    // 153,968 whole snaps: 19 lapses, 28 lulls, 29 moments and 2 snaps
    assert_eq!(misalian_kunimunean_time_formatter().render(time.millis()), "31:44:45.2");
}

#[test]
fn the_switches_select_the_form() {
    assert_eq!(Form::select(false, false, false), Form::Extended);
    assert_eq!(Form::select(false, true, false), Form::Snap);
    assert_eq!(Form::select(false, false, true), Form::Snap);
    assert_eq!(Form::select(false, true, true), Form::Snap);
    for basic in [false, true] {
        for snap in [false, true] {
            assert_eq!(Form::select(true, basic, snap), Form::Span);
        }
    }
}

#[test]
fn each_form_has_its_formatter() {
    assert_eq!(Form::Extended.formatter().render(47_521_888), "31:44:45.4");
    assert_eq!(Form::Snap.formatter().render(47_521_888), "3144454");
    assert_eq!(Form::Span.formatter().render(47_521_888), "314");
}
