use vstd::prelude::*;
use vstd::std_specs::convert::FromSpecImpl;
use vstd::string::*;

use crate::digits::rendering_len;
use crate::ratio::{ExactRatio, Fraction};
use crate::unit::{TimeUnit, UnitModel};

verus! {

/// One piece of a layout, as contracts speak of it.
pub enum SegmentModel {
    /// A fixed text.
    Literal(Seq<char>),
    /// A place of the mixed-radix system.
    Value(UnitModel),
}

impl SegmentModel {
    /// A literal is always well formed; a place is when it can be
    /// rendered.
    pub open spec fn wf(self) -> bool {
        match self {
            SegmentModel::Literal(_) => true,
            SegmentModel::Value(unit) => unit.wf(),
        }
    }

    /// The text of the segment for `total`: the literal itself, whatever
    /// the total, or the text of the place for that total.
    pub open spec fn text(self, total: Fraction) -> Seq<char> {
        match self {
            SegmentModel::Literal(text) => text,
            SegmentModel::Value(unit) => unit.text(total),
        }
    }

    /// How long the text of the segment is for `total`: the length of the
    /// literal, or the wider of the place's width and the count of digits
    /// of its digit value.
    pub open spec fn text_len(self, total: Fraction) -> nat {
        match self {
            SegmentModel::Literal(text) => text.len(),
            SegmentModel::Value(unit) => rendering_len(unit.digit(total), unit.radix, unit.width),
        }
    }
}

/// A segment to render: a literal text, or a unit whose digit is taken
/// from the total.
#[derive(Debug)]
pub enum Segment<'s> {
    /// A literal string.
    Literal(&'s str),
    /// A segment that is rendered through a unit.
    Value(TimeUnit<'s>),
}

impl<'s> View for Segment<'s> {
    type V = SegmentModel;

    open spec fn view(&self) -> SegmentModel {
        match self {
            Segment::Literal(text) => SegmentModel::Literal(text@),
            Segment::Value(unit) => SegmentModel::Value(unit@),
        }
    }
}

impl<'s> Clone for Segment<'s> {
    fn clone(&self) -> (copy: Self)
        ensures
            copy == *self,
    {
        match self {
            Segment::Literal(text) => Segment::Literal(*text),
            Segment::Value(unit) => Segment::Value(unit.clone()),
        }
    }
}

impl<'s> Segment<'s> {
    /// Renders this segment for `total`, the time to show in base units.
    /// A literal does not look at the total. A unit takes its own digit
    /// from it and writes that.
    pub fn render(&self, total: ExactRatio) -> (text: String)
        ensures
            text@ == self@.text(total@),
    {
        match self {
            Segment::Literal(text) => String::from_str(text),
            Segment::Value(unit) => unit.render(unit.digit(total)),
        }
    }

    /// Renders this segment for `total` as `render` does, onto the end of
    /// `out`.
    pub fn render_fmt(&self, out: &mut String, total: ExactRatio)
        ensures
            final(out)@ == old(out)@ + self@.text(total@),
    {
        match self {
            Segment::Literal(text) => out.append(text),
            Segment::Value(unit) => unit.render_fmt(out, unit.digit(total)),
        }
    }
}

impl<'s> From<&'s str> for Segment<'s> {
    /// The literal segment of a text.
    fn from(text: &'s str) -> (segment: Self) {
        Segment::Literal(text)
    }
}

impl<'s> FromSpecImpl<&'s str> for Segment<'s> {
    open spec fn obeys_from_spec() -> bool {
        true
    }

    open spec fn from_spec(text: &'s str) -> Self {
        Segment::Literal(text)
    }
}

impl<'s> From<TimeUnit<'s>> for Segment<'s> {
    /// The segment that renders through a unit.
    fn from(unit: TimeUnit<'s>) -> (segment: Self) {
        Segment::Value(unit)
    }
}

impl<'s> FromSpecImpl<TimeUnit<'s>> for Segment<'s> {
    open spec fn obeys_from_spec() -> bool {
        true
    }

    open spec fn from_spec(unit: TimeUnit<'s>) -> Self {
        Segment::Value(unit)
    }
}

} // verus!
