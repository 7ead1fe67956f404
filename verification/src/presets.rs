use vstd::arithmetic::div_mod::lemma_multiply_divide_lt;
use vstd::prelude::*;

use crate::formatter::{layout_model, FormatterModel, TimeFormatter};
use crate::laws::lemma_digit_of_whole_part;
use crate::ratio::{ExactRatio, Fraction};
use crate::segment::{Segment, SegmentModel};
use crate::unit::{TimeUnit, UnitModel, DEFAULT_WIDTH};

verus! {

/// The radix of the seximal units.
pub const SEXIMAL_RADIX: u8 = 6;

/// The number of snaps in a day: six snaps to the moment, thirty-six
/// moments to the lull, thirty-six lulls to the lapse and thirty-six
/// lapses to the day.
pub const SNAPS_PER_DAY: u32 = 279_936;

/// The number of milliseconds in a day.
pub const MILLIS_PER_DAY: u32 = 86_400_000;

/// The number of snaps in a span.
pub const SNAPS_PER_SPAN: u32 = 1296;

/// The base of the seximal units: snaps per millisecond.
pub open spec fn snaps_per_milli() -> Fraction {
    Fraction { numer: SNAPS_PER_DAY as nat, denom: MILLIS_PER_DAY as nat }
}

/// A seximal place of a layout.
pub open spec fn seximal_place(label: Seq<char>, place_value: nat, modulus: nat, width: nat)
    -> SegmentModel {
    SegmentModel::Value(
        UnitModel { radix: SEXIMAL_RADIX as nat, label, place_value, modulus, width },
    )
}

/// The extended layout: lapses, lulls and moments of two digits each,
/// with colons between them, then a point and the snap.
pub open spec fn extended_layout() -> Seq<SegmentModel> {
    seq![
        seximal_place("lapse"@, 7776, 36, DEFAULT_WIDTH as nat),
        SegmentModel::Literal(":"@),
        seximal_place("lull"@, 216, 36, DEFAULT_WIDTH as nat),
        SegmentModel::Literal(":"@),
        seximal_place("moment"@, 6, 36, DEFAULT_WIDTH as nat),
        SegmentModel::Literal("."@),
        seximal_place("snap"@, 1, 6, 0),
    ]
}

/// The span layout: the count of spans, three digits wide.
pub open spec fn span_layout() -> Seq<SegmentModel> {
    seq![seximal_place("span"@, SNAPS_PER_SPAN as nat, SNAPS_PER_SPAN as nat, 3)]
}

/// The snap layout: the count of snaps in the day, seven digits wide.
pub open spec fn snap_layout() -> Seq<SegmentModel> {
    seq![seximal_place("snap"@, 1, SNAPS_PER_DAY as nat, 7)]
}

/// The places of the extended layout, from the lapse down to the snap.
pub open spec fn extended_places() -> (UnitModel, UnitModel, UnitModel, UnitModel) {
    (
        extended_layout()[0]->Value_0,
        extended_layout()[2]->Value_0,
        extended_layout()[4]->Value_0,
        extended_layout()[6]->Value_0,
    )
}

/// The extended layout is a true mixed-radix system: one step of each
/// place is a full round of the place after it, the snap is the base
/// unit, and a full round of the lapses is a day.
pub proof fn lemma_extended_places_nest()
    ensures
        ({
            let (lapse, lull, moment, snap) = extended_places();
            &&& lapse.wf() && lull.wf() && moment.wf() && snap.wf()
            &&& snap.place_value == 1
            &&& moment.place_value == snap.place_value * snap.modulus
            &&& lull.place_value == moment.place_value * moment.modulus
            &&& lapse.place_value == lull.place_value * lull.modulus
            &&& SNAPS_PER_DAY == lapse.place_value * lapse.modulus
        }),
{
}

/// Within a day the extended form loses nothing: its four digits, each
/// weighed with its place value, add up to the whole snaps that have gone
/// by. The snap form shows that same count, and the span form the whole
/// spans in it, of which a day has 216.
pub proof fn lemma_extended_form_within_a_day(ms: nat)
    requires
        ms < MILLIS_PER_DAY,
    ensures
        ({
            let (lapse, lull, moment, snap) = extended_places();
            let total = snaps_per_milli().times(ms);
            &&& total.floor() < SNAPS_PER_DAY
            &&& total.floor() == lapse.digit(total) * 7776 + lull.digit(total) * 216
                + moment.digit(total) * 6 + snap.digit(total)
            &&& snap_layout()[0]->Value_0.digit(total) == total.floor()
            &&& span_layout()[0]->Value_0.digit(total) == total.floor() / (SNAPS_PER_SPAN as nat)
            &&& span_layout()[0]->Value_0.digit(total) < 216
        }),
{
    let (lapse, lull, moment, snap) = extended_places();
    let total = snaps_per_milli().times(ms);
    let whole = Fraction { numer: total.floor(), denom: 1 };
    lemma_digit_of_whole_part(total, lapse);
    lemma_digit_of_whole_part(total, lull);
    lemma_digit_of_whole_part(total, moment);
    lemma_digit_of_whole_part(total, snap);
    lemma_digit_of_whole_part(total, snap_layout()[0]->Value_0);
    lemma_digit_of_whole_part(total, span_layout()[0]->Value_0);
    assert(total.numer == 279_936 * ms);
    assert(total.denom == 86_400_000);
    let snaps = whole.numer as int;
    assert(snaps == (279_936 * ms) / 86_400_000);
    lemma_multiply_divide_lt((279_936 * ms) as int, 86_400_000, 279_936);
    assert(lapse.steps(whole) == snaps / 7776);
    assert(lull.steps(whole) == snaps / 216);
    assert(moment.steps(whole) == snaps / 6);
    assert(snap.steps(whole) == snaps);
    assert(span_layout()[0]->Value_0.steps(whole) == snaps / 1296);
}

/// The forms in which the seximal time of day is written.
#[derive(Clone, Copy, Debug, PartialEq, Eq, Structural)]
pub enum Form {
    /// Lapses, lulls, moments and snaps with their delimiters.
    Extended,
    /// The count of spans alone.
    Span,
    /// The count of snaps alone.
    Snap,
}

impl Form {
    /// The form that three switches select: the span form where it is
    /// asked for, whatever else is; else the snap form where it is asked
    /// for under either of its two names; else the extended form.
    pub open spec fn selected(span: bool, basic: bool, snap: bool) -> Form {
        if span {
            Form::Span
        } else if basic || snap {
            Form::Snap
        } else {
            Form::Extended
        }
    }

    /// The layout of the form.
    pub open spec fn layout(self) -> Seq<SegmentModel> {
        match self {
            Form::Extended => extended_layout(),
            Form::Span => span_layout(),
            Form::Snap => snap_layout(),
        }
    }

    /// Selects the form from the switches `span`, `basic` and `snap`, of
    /// which the last two name the same form.
    pub fn select(span: bool, basic: bool, snap: bool) -> (form: Form)
        ensures
            form == Form::selected(span, basic, snap),
    {
        if span {
            Form::Span
        } else if basic || snap {
            Form::Snap
        } else {
            Form::Extended
        }
    }

    /// The formatter of the form.
    pub fn formatter(self) -> (formatter: TimeFormatter<'static>)
        ensures
            formatter@ == (FormatterModel { base: snaps_per_milli(), segments: self.layout() }),
    {
        match self {
            Form::Extended => misalian_kunimunean_time_formatter(),
            Form::Span => mk_span_time_formatter(),
            Form::Snap => mk_snap_time_formatter(),
        }
    }
}

/// The seximal base as a ratio.
fn seximal_base() -> (base: ExactRatio)
    ensures
        base@ == snaps_per_milli(),
{
    ExactRatio::new(SNAPS_PER_DAY as u128, MILLIS_PER_DAY as u128).unwrap()
}

/// A seximal unit of the default width as a segment.
fn seximal_segment(name: &'static str, value: u32, limit: u32) -> (segment: Segment<'static>)
    requires
        value > 0,
    ensures
        segment@ == seximal_place(name@, value as nat, limit as nat, DEFAULT_WIDTH as nat),
{
    proof {
        TimeUnit::lemma_built(SEXIMAL_RADIX, name, value, limit, DEFAULT_WIDTH);
    }
    Segment::Value(TimeUnit::try_from((SEXIMAL_RADIX, name, value, limit)).unwrap())
}

/// A seximal unit of a given width as a segment.
fn seximal_segment_of_width(name: &'static str, value: u32, limit: u32, width: usize) -> (segment:
    Segment<'static>)
    requires
        value > 0,
    ensures
        segment@ == seximal_place(name@, value as nat, limit as nat, width as nat),
{
    proof {
        TimeUnit::lemma_built(SEXIMAL_RADIX, name, value, limit, width);
    }
    Segment::Value(TimeUnit::try_from((SEXIMAL_RADIX, name, value, limit, width)).unwrap())
}

/// A formatter on the seximal base with the layout `segments`.
fn seximal_formatter(segments: Vec<Segment<'static>>) -> (formatter: TimeFormatter<'static>)
    ensures
        formatter@ == (FormatterModel {
            base: snaps_per_milli(),
            segments: layout_model(segments@),
        }),
{
    TimeFormatter::new(seximal_base(), segments).unwrap()
}

/// The formatter of the Misalian-Kunimunean seximal units in their
/// extended form, such as `20:34:05.0`.
pub fn misalian_kunimunean_time_formatter() -> (formatter: TimeFormatter<'static>)
    ensures
        formatter@ == (FormatterModel { base: snaps_per_milli(), segments: extended_layout() }),
{
    let mut segments: Vec<Segment<'static>> = Vec::new();
    segments.push(seximal_segment("lapse", 7776, 36));
    segments.push(Segment::Literal(":"));
    segments.push(seximal_segment("lull", 216, 36));
    segments.push(Segment::Literal(":"));
    segments.push(seximal_segment("moment", 6, 36));
    segments.push(Segment::Literal("."));
    segments.push(seximal_segment_of_width("snap", 1, 6, 0));
    assert(layout_model(segments@) =~= extended_layout());
    seximal_formatter(segments)
}

/// The formatter of Misalian-Kunimunean spans: the number of spans that
/// have gone by, padded to three digits, from `000` to `555`.
pub fn mk_span_time_formatter() -> (formatter: TimeFormatter<'static>)
    ensures
        formatter@ == (FormatterModel { base: snaps_per_milli(), segments: span_layout() }),
{
    let mut segments: Vec<Segment<'static>> = Vec::new();
    segments.push(seximal_segment_of_width("span", SNAPS_PER_SPAN, SNAPS_PER_SPAN, 3));
    assert(layout_model(segments@) =~= span_layout());
    seximal_formatter(segments)
}

/// The formatter of Misalian-Kunimunean snaps: the extended form without
/// its delimiters, padded to seven digits, from `0000000` to `5555555`.
pub fn mk_snap_time_formatter() -> (formatter: TimeFormatter<'static>)
    ensures
        formatter@ == (FormatterModel { base: snaps_per_milli(), segments: snap_layout() }),
{
    let mut segments: Vec<Segment<'static>> = Vec::new();
    segments.push(seximal_segment_of_width("snap", 1, SNAPS_PER_DAY, 7));
    assert(layout_model(segments@) =~= snap_layout());
    seximal_formatter(segments)
}

} // verus!
