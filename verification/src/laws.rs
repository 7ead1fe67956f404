use vstd::prelude::*;
use vstd::arithmetic::div_mod::{
    lemma_div_by_multiple, lemma_div_denominator, lemma_fundamental_div_mod,
    lemma_fundamental_div_mod_converse, lemma_mod_bound, lemma_mod_multiples_basic,
    lemma_multiply_divide_lt, lemma_small_mod,
};
use vstd::arithmetic::mul::{lemma_mul_is_associative, lemma_mul_strictly_positive};

use crate::digits::lemma_rendering_len;
use crate::formatter::{layout_len, layout_text, FormatterModel};
use crate::ratio::Fraction;
use crate::segment::SegmentModel;
use crate::unit::UnitModel;

verus! {

/// The digit of a place with a modulus lies below the modulus; that of a
/// place without one is the count of its whole steps.
pub proof fn lemma_digit_range(unit: UnitModel, total: Fraction)
    ensures
        unit.modulus > 0 ==> unit.digit(total) < unit.modulus,
        unit.modulus == 0 ==> unit.digit(total) == unit.steps(total),
{
    if unit.modulus > 0 {
        lemma_mod_bound(unit.steps(total) as int, unit.modulus as int);
    }
}

/// The text of a segment is as long as its literal, or, for a place, as
/// the wider of the width and the count of digits of its digit.
pub proof fn lemma_segment_text_len(segment: SegmentModel, total: Fraction)
    ensures
        segment.text(total).len() == segment.text_len(total),
{
    match segment {
        SegmentModel::Literal(_) => {},
        SegmentModel::Value(unit) => {
            lemma_rendering_len(unit.digit(total), unit.radix, unit.width);
        },
    }
}

/// The text of a layout is as long as the texts of its segments together.
pub proof fn lemma_layout_text_len(segments: Seq<SegmentModel>, total: Fraction)
    ensures
        layout_text(segments, total).len() == layout_len(segments, total),
    decreases segments.len(),
{
    if segments.len() > 0 {
        lemma_layout_text_len(segments.drop_last(), total);
        lemma_segment_text_len(segments.last(), total);
    }
}

/// The text of a millisecond count is exactly as long as the literals of
/// the layout and, for each place, the wider of its width and the count
/// of digits of its digit.
pub proof fn lemma_text_len(formatter: FormatterModel, ms: nat)
    ensures
        formatter.text(ms).len() == formatter.text_len(ms),
{
    lemma_layout_text_len(formatter.segments, formatter.total(ms));
}

/// The whole steps of a place are those of the place below it, divided by
/// that place's modulus: a step of the coarser place is a full round of
/// the finer one.
pub proof fn lemma_steps_nest(total: Fraction, coarse: UnitModel, fine: UnitModel)
    requires
        total.wf(),
        coarse.wf(),
        fine.wf(),
        coarse.place_value == fine.place_value * fine.modulus,
    ensures
        fine.modulus > 0,
        coarse.steps(total) == fine.steps(total) / fine.modulus,
{
    let n = total.numer as int;
    let d = total.denom as int;
    let p = fine.place_value as int;
    let m = fine.modulus as int;
    assert(m > 0) by (nonlinear_arith)
        requires
            p * m > 0,
            p > 0,
            m >= 0,
    ;
    lemma_mul_strictly_positive(d, p);
    lemma_div_denominator(n, d * p, m);
    lemma_mul_is_associative(d, p, m);
}

/// Two places in a row take a total apart so that it can be put together
/// again: where one step of the coarser place is a full round of the
/// finer one, the two digits, each weighed with its place value, lie at
/// or below the total, and less than one step of the finer place below
/// it. This is said of a total that the coarser place can hold: one
/// without a modulus holds every total, one with a modulus those below
/// its full round.
pub proof fn lemma_two_places_recombine(total: Fraction, coarse: UnitModel, fine: UnitModel)
    requires
        total.wf(),
        coarse.wf(),
        fine.wf(),
        coarse.place_value == fine.place_value * fine.modulus,
        coarse.modulus == 0 || total.below(coarse.place_value * coarse.modulus),
    ensures
        total.at_least(
            coarse.digit(total) * coarse.place_value + fine.digit(total) * fine.place_value,
        ),
        total.below(
            coarse.digit(total) * coarse.place_value + fine.digit(total) * fine.place_value
                + fine.place_value,
        ),
{
    let n = total.numer as int;
    let d = total.denom as int;
    let p = fine.place_value as int;
    let m = fine.modulus as int;
    let big = coarse.place_value as int;
    let fine_steps = fine.steps(total) as int;
    let coarse_steps = coarse.steps(total) as int;
    let high = coarse.digit(total) as int;
    let low = fine.digit(total) as int;

    lemma_steps_nest(total, coarse, fine);
    lemma_mul_strictly_positive(d, p);
    lemma_mul_strictly_positive(d, big);

    // The coarser digit is the count of coarse steps: nothing was wrapped.
    assert(high == coarse_steps) by {
        if coarse.modulus != 0 {
            let wrap = coarse.modulus as int;
            assert(n < (d * big) * wrap) by (nonlinear_arith)
                requires
                    n < (big * wrap) * d,
            ;
            lemma_multiply_divide_lt(n, d * big, wrap);
            lemma_small_mod(coarse_steps as nat, wrap as nat);
        }
    }

    // The two digits together are the count of fine steps.
    lemma_fundamental_div_mod(fine_steps, m);
    assert(high * big + low * p == fine_steps * p) by (nonlinear_arith)
        requires
            fine_steps == m * high + low,
            big == p * m,
    ;

    // The fine steps bracket the total.
    lemma_fundamental_div_mod(n, d * p);
    lemma_mod_bound(n, d * p);
    assert((fine_steps * p) * d == (d * p) * fine_steps) by (nonlinear_arith);
    assert((fine_steps * p + p) * d == (d * p) * fine_steps + d * p) by (nonlinear_arith);
}

/// A total that is a whole number of steps of a place carries cleanly:
/// the place counts exactly that number of steps, and the place below it
/// shows zero.
pub proof fn lemma_exact_multiple_carries(
    total: Fraction,
    coarse: UnitModel,
    fine: UnitModel,
    count: nat,
)
    requires
        total.wf(),
        coarse.wf(),
        fine.wf(),
        coarse.place_value == fine.place_value * fine.modulus,
        total.numer == count * coarse.place_value * total.denom,
    ensures
        coarse.steps(total) == count,
        fine.digit(total) == 0,
{
    let n = total.numer as int;
    let d = total.denom as int;
    let p = fine.place_value as int;
    let m = fine.modulus as int;
    let big = coarse.place_value as int;
    lemma_steps_nest(total, coarse, fine);
    lemma_mul_strictly_positive(d, p);
    lemma_mul_strictly_positive(d, big);
    assert(n == (count as int) * (d * big)) by (nonlinear_arith)
        requires
            n == (count as int) * big * d,
    ;
    lemma_div_by_multiple(count as int, d * big);
    assert(n == ((count as int) * m) * (d * p)) by (nonlinear_arith)
        requires
            n == (count as int) * big * d,
            big == p * m,
    ;
    assert((count as int) * m >= 0) by (nonlinear_arith)
        requires
            count >= 0,
            m > 0,
    ;
    lemma_div_by_multiple((count as int) * m, d * p);
    lemma_mod_multiples_basic(count as int, m);
}

/// Truncating the total to a whole number of base units before the digits
/// are taken changes no digit: each digit of the exact total is the digit
/// of its whole part.
pub proof fn lemma_digit_of_whole_part(total: Fraction, unit: UnitModel)
    requires
        total.wf(),
        unit.wf(),
    ensures
        unit.digit(Fraction { numer: total.floor(), denom: 1 }) == unit.digit(total),
{
    let n = total.numer as int;
    let d = total.denom as int;
    let p = unit.place_value as int;
    lemma_div_denominator(n, d, p);
    assert(1 * p == p);
}

/// Two fractions of the same worth give every place the same digit: a
/// base in lowest terms renders like the same base written in full.
pub proof fn lemma_equal_fractions_same_digit(a: Fraction, b: Fraction, unit: UnitModel)
    requires
        a.wf(),
        b.wf(),
        unit.wf(),
        a.numer * b.denom == b.numer * a.denom,
    ensures
        unit.steps(a) == unit.steps(b),
        unit.digit(a) == unit.digit(b),
{
    let p = unit.place_value as int;
    let an = a.numer as int;
    let ad = a.denom as int;
    let bn = b.numer as int;
    let bd = b.denom as int;
    lemma_mul_strictly_positive(ad, p);
    lemma_mul_strictly_positive(bd, p);
    let q = an / (ad * p);
    let r = an % (ad * p);
    lemma_fundamental_div_mod(an, ad * p);
    lemma_mod_bound(an, ad * p);
    let rest = bn - q * (bd * p);
    assert(rest * ad == r * bd) by (nonlinear_arith)
        requires
            an * bd == bn * ad,
            an == (ad * p) * q + r,
            rest == bn - q * (bd * p),
    ;
    assert(0 <= rest) by (nonlinear_arith)
        requires
            rest * ad == r * bd,
            0 <= r,
            0 < ad,
            0 < bd,
    ;
    assert(rest < bd * p) by (nonlinear_arith)
        requires
            rest * ad == r * bd,
            r < ad * p,
            0 < ad,
            0 < bd,
    ;
    lemma_fundamental_div_mod_converse(bn, bd * p, q, rest);
}

} // verus!
