use vstd::prelude::*;

use crate::error::ConfigError;
use crate::laws::lemma_text_len;
use crate::ratio::{ExactRatio, Fraction};
use crate::segment::{Segment, SegmentModel};

verus! {

/// The largest millisecond count that can be rendered.
pub const MAX_MILLIS: u32 = u32::MAX;

/// The texts of `segments` for `total`, one after the other in the order
/// of the layout. Every segment reads the same total.
pub open spec fn layout_text(segments: Seq<SegmentModel>, total: Fraction) -> Seq<char>
    decreases segments.len(),
{
    if segments.len() == 0 {
        Seq::empty()
    } else {
        layout_text(segments.drop_last(), total) + segments.last().text(total)
    }
}

/// The sum of the lengths of the texts of `segments` for `total`.
pub open spec fn layout_len(segments: Seq<SegmentModel>, total: Fraction) -> nat
    decreases segments.len(),
{
    if segments.len() == 0 {
        0
    } else {
        layout_len(segments.drop_last(), total) + segments.last().text_len(total)
    }
}

/// The models of the segments of a layout, in order.
pub open spec fn layout_model<'f>(segments: Seq<Segment<'f>>) -> Seq<SegmentModel> {
    segments.map_values(|segment: Segment<'f>| segment@)
}

/// A formatter, as contracts speak of it.
pub struct FormatterModel {
    /// How many base units a millisecond is worth.
    pub base: Fraction,
    /// The layout, in the order in which it is written.
    pub segments: Seq<SegmentModel>,
}

impl FormatterModel {
    /// A formatter is well formed when its base ratio and each of its
    /// segments are.
    pub open spec fn wf(self) -> bool {
        &&& self.base.wf()
        &&& forall|i: int| 0 <= i < self.segments.len() ==> (#[trigger] self.segments[i]).wf()
    }

    /// The time `ms`, in milliseconds, counted in base units: the base
    /// ratio times `ms`, exactly.
    pub open spec fn total(self, ms: nat) -> Fraction {
        self.base.times(ms)
    }

    /// The text of `ms` milliseconds.
    pub open spec fn text(self, ms: nat) -> Seq<char> {
        layout_text(self.segments, self.total(ms))
    }

    /// The length of the text of `ms` milliseconds.
    pub open spec fn text_len(self, ms: nat) -> nat {
        layout_len(self.segments, self.total(ms))
    }
}

/// A system of units for writing out a time of day: a conversion from
/// milliseconds to base units, and the segments to render in the order in
/// which they are displayed.
#[derive(Debug)]
pub struct TimeFormatter<'f> {
    /// The proportion of base units to milliseconds. A system whose day of
    /// 86,400,000 milliseconds has 279,936 base units has the base
    /// 279,936 / 86,400,000.
    base: ExactRatio,
    /// The segments to render, in the order that they are displayed.
    segments: Vec<Segment<'f>>,
}

impl<'f> View for TimeFormatter<'f> {
    type V = FormatterModel;

    closed spec fn view(&self) -> FormatterModel {
        FormatterModel { base: self.base@, segments: layout_model(self.segments@) }
    }
}

impl<'f> Clone for TimeFormatter<'f> {
    fn clone(&self) -> (copy: Self)
        ensures
            copy@ == self@,
    {
        proof {
            use_type_invariant(self);
        }
        let mut segments: Vec<Segment<'f>> = Vec::new();
        let mut i: usize = 0;
        while i < self.segments.len()
            invariant
                i <= self.segments.len(),
                segments@ == self.segments@.take(i as int),
            decreases self.segments.len() - i,
        {
            segments.push(self.segments[i].clone());
            i = i + 1;
            assert(segments@ =~= self.segments@.take(i as int));
        }
        assert(segments@ =~= self.segments@);
        TimeFormatter { base: self.base, segments }
    }
}

impl<'f> TimeFormatter<'f> {
    #[verifier::type_invariant]
    spec fn total_fits(self) -> bool {
        self.base@.numer * MAX_MILLIS <= u128::MAX
    }

    /// Builds a formatter from its base ratio and its layout. A base whose
    /// numerator, multiplied by the largest millisecond count, would leave
    /// the range of the total is refused, so that rendering never
    /// overflows.
    pub fn new(base: ExactRatio, segments: Vec<Segment<'f>>) -> (made: Result<Self, ConfigError>)
        ensures
            base@.numer * MAX_MILLIS > u128::MAX ==> made == Err::<Self, ConfigError>(
                ConfigError::ArithmeticOverflow,
            ),
            base@.numer * MAX_MILLIS <= u128::MAX ==> made is Ok && made->Ok_0@ == (FormatterModel {
                base: base@,
                segments: layout_model(segments@),
            }),
    {
        match base.checked_times(MAX_MILLIS as u128) {
            Some(_) => Ok(TimeFormatter { base, segments }),
            None => Err(ConfigError::ArithmeticOverflow),
        }
    }

    /// The proportion of base units to milliseconds.
    pub fn base(&self) -> (base: ExactRatio)
        ensures
            base@ == self@.base,
    {
        self.base
    }

    /// The segments of the layout, in the order in which they are written.
    pub fn segments(&self) -> (segments: &Vec<Segment<'f>>)
        ensures
            layout_model(segments@) == self@.segments,
    {
        &self.segments
    }

    /// The time `ms`, in milliseconds, counted in base units. The
    /// numerator of the base is multiplied by `ms` and the denominator is
    /// kept: nothing is rounded and nothing is reduced.
    pub fn total(&self, ms: u32) -> (total: ExactRatio)
        ensures
            total@ == self@.total(ms as nat),
    {
        proof {
            use_type_invariant(self);
            assert(self.base@.numer * ms <= self.base@.numer * MAX_MILLIS) by (nonlinear_arith)
                requires
                    ms <= MAX_MILLIS,
            ;
        }
        self.base.checked_times(ms as u128).unwrap()
    }

    /// Renders `ms` milliseconds: the texts of the segments for the exact
    /// total of `ms`, in the order of the layout. The text depends on the
    /// formatter and on `ms` alone, so the same count always renders the
    /// same; its length is the sum of the lengths of its segments.
    pub fn render(&self, ms: u32) -> (text: String)
        ensures
            text@ == self@.text(ms as nat),
            text@.len() == self@.text_len(ms as nat),
    {
        let total = self.total(ms);
        let mut text = String::new();
        let mut i: usize = 0;
        while i < self.segments.len()
            invariant
                i <= self.segments.len(),
                text@ == layout_text(layout_model(self.segments@).take(i as int), total@),
            decreases self.segments.len() - i,
        {
            let ghost done = layout_model(self.segments@).take(i as int);
            let ghost next = layout_model(self.segments@).take(i + 1);
            self.segments[i].render_fmt(&mut text, total);
            i = i + 1;
            proof {
                assert(next.drop_last() =~= done);
                assert(next.last() == self.segments@[i - 1]@);
            }
        }
        proof {
            let all = layout_model(self.segments@);
            assert(all.take(i as int) =~= all);
            lemma_text_len(self@, ms as nat);
        }
        text
    }
}

} // verus!
