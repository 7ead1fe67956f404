use mixed_radix_clock::{ConfigError, ExactRatio, Segment, TimeFormatter, TimeUnit};

fn unit(parts: (u8, &'static str, u32, u32)) -> TimeUnit<'static> {
    TimeUnit::try_from(parts).unwrap()
}

fn unit_of_width(parts: (u8, &'static str, u32, u32, usize)) -> TimeUnit<'static> {
    TimeUnit::try_from(parts).unwrap()
}

fn si_time_units(millisecond_width: usize) -> TimeFormatter<'static> {
    TimeFormatter::new(
        ExactRatio::new(1, 1).unwrap(), // 1ms = 1ms
        vec![
            Segment::Value(unit((10, "hour", 3_600_000, 24))),
            Segment::Literal(":"),
            Segment::Value(unit((10, "minute", 60_000, 60))),
            Segment::Literal(":"),
            Segment::Value(unit((10, "second", 1_000, 60))),
            Segment::Literal("."),
            Segment::Value(unit_of_width((
                10,
                "millisecond",
                1,
                1_000,
                millisecond_width,
            ))),
        ],
    )
    .unwrap()
}

#[test]
fn construct_hms_ms() {
    // h:m:s.ms
    let si_time_units = si_time_units(0);

    assert_eq!(si_time_units.render(0), "00:00:00.0");
    // the millisecond place has no width of its own, so 92 takes two digits
    assert_eq!(si_time_units.render(7_679_092), "02:07:59.92");
    assert_eq!(si_time_units.render(49_029_000), "13:37:09.0");
}

#[test]
fn hms_ms_with_a_width_of_one() {
    let si_time_units = si_time_units(1);

    assert_eq!(si_time_units.render(0), "00:00:00.0");
    assert_eq!(si_time_units.render(7_679_092), "02:07:59.92");
    assert_eq!(si_time_units.render(49_029_000), "13:37:09.0");
}

#[test]
fn hms_ms_with_a_width_of_three() {
    let si_time_units = si_time_units(3);

    assert_eq!(si_time_units.render(0), "00:00:00.000");
    assert_eq!(si_time_units.render(7_679_092), "02:07:59.092");
    assert_eq!(si_time_units.render(49_029_000), "13:37:09.000");
}

#[test]
fn hours_wrap_at_their_modulus() {
    let formatter = si_time_units(3);
    // 25 h 1 min 1 s 1 ms
    assert_eq!(formatter.render(90_061_001), "01:01:01.001");
    assert_eq!(formatter.render(86_400_000), "00:00:00.000");
    assert_eq!(formatter.render(86_399_999), "23:59:59.999");
}

#[test]
fn a_modulus_of_zero_never_wraps() {
    let formatter = TimeFormatter::new(
        ExactRatio::new(1, 1).unwrap(),
        vec![
            Segment::Value(unit((10, "hour", 3_600_000, 0))),
            Segment::Literal(":"),
            Segment::Value(unit((10, "minute", 60_000, 60))),
        ],
    )
    .unwrap();
    assert_eq!(formatter.render(90_061_001), "25:01");
    assert_eq!(formatter.render(u32::MAX), "1193:02");
    assert_eq!(formatter.render(0), "00:00");
}

#[test]
fn an_empty_layout_renders_nothing() {
    let formatter = TimeFormatter::new(ExactRatio::new(5, 7).unwrap(), Vec::new()).unwrap();
    assert_eq!(formatter.render(0), "");
    assert_eq!(formatter.render(123_456), "");
}

#[test]
fn literals_do_not_look_at_the_time() {
    let formatter = TimeFormatter::new(
        ExactRatio::new(1, 1).unwrap(),
        vec![Segment::Literal("T+"), Segment::Literal(""), Segment::Literal("ms")],
    )
    .unwrap();
    assert_eq!(formatter.render(0), "T+ms");
    assert_eq!(formatter.render(u32::MAX), "T+ms");
}

#[test]
fn rendering_twice_gives_the_same_text() {
    let formatter = si_time_units(3);
    for ms in [0u32, 1, 999, 1_000, 7_679_092, 49_029_000, 86_399_999, u32::MAX] {
        let first = formatter.render(ms);
        let second = formatter.render(ms);
        assert_eq!(first, second);
        assert_eq!(formatter.clone().render(ms), first);
    }
}

#[test]
fn the_text_is_as_long_as_its_segments() {
    let formatter = si_time_units(1);
    // 2 + 1 + 2 + 1 + 2 + 1 + max(1, digits of the milliseconds)
    assert_eq!(formatter.render(0).len(), 10);
    assert_eq!(formatter.render(7_679_009).len(), 10);
    assert_eq!(formatter.render(7_679_092).len(), 11);
    assert_eq!(formatter.render(7_679_992).len(), 12);
}

#[test]
fn the_total_is_the_base_times_the_milliseconds() {
    let formatter = TimeFormatter::new(
        ExactRatio::new(279_936, 86_400_000).unwrap(),
        Vec::new(),
    )
    .unwrap();
    let total = formatter.total(47_521_888);
    assert_eq!(total.numer(), 279_936u128 * 47_521_888);
    assert_eq!(total.denom(), 86_400_000);
    let nothing = formatter.total(0);
    assert_eq!(nothing.numer(), 0);
    assert_eq!(nothing.denom(), 86_400_000);
}

#[test]
fn a_formatter_keeps_its_parts() {
    let formatter = si_time_units(3);
    assert_eq!((formatter.base().numer(), formatter.base().denom()), (1, 1));
    assert_eq!(formatter.segments().len(), 7);
    let texts: Vec<String> = formatter
        .segments()
        .iter()
        .map(|segment| segment.render(formatter.total(7_679_092)))
        .collect();
    assert_eq!(texts, ["02", ":", "07", ":", "59", ".", "092"]);
    assert_eq!(texts.concat(), formatter.render(7_679_092));
}

#[test]
fn a_base_that_could_overflow_is_refused() {
    let largest = u128::MAX / (u32::MAX as u128);
    let fits = TimeFormatter::new(ExactRatio::new(largest, 1).unwrap(), Vec::new());
    assert!(fits.is_ok());
    assert_eq!(fits.unwrap().total(u32::MAX).numer(), largest * (u32::MAX as u128));

    let too_large = TimeFormatter::new(ExactRatio::new(largest + 1, 1).unwrap(), Vec::new());
    assert_eq!(too_large.err(), Some(ConfigError::ArithmeticOverflow));
    let huge = TimeFormatter::new(ExactRatio::new(u128::MAX, 3).unwrap(), Vec::new());
    assert_eq!(huge.err(), Some(ConfigError::ArithmeticOverflow));
}

#[test]
fn a_huge_denominator_renders_zero() {
    // the total is below one base unit for every count of milliseconds
    let formatter = TimeFormatter::new(
        ExactRatio::new(1, u128::MAX).unwrap(),
        vec![Segment::Value(unit((10, "tick", u32::MAX, 0)))],
    )
    .unwrap();
    assert_eq!(formatter.render(u32::MAX), "00");
}
