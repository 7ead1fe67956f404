use vstd::prelude::*;
use vstd::string::*;
use vstd::arithmetic::div_mod::{lemma_div_decreases, lemma_fundamental_div_mod, lemma_mod_bound};

use crate::error::ConfigError;

verus! {

/// The smallest radix in which a value can be written.
pub const MIN_RADIX: u8 = 2;

/// The largest radix in which a value can be written: ten digits and
/// twenty-six letters.
pub const MAX_RADIX: u8 = 36;

/// Whether `radix` is one in which a value can be written.
pub open spec fn radix_in_range(radix: nat) -> bool {
    MIN_RADIX as nat <= radix <= MAX_RADIX as nat
}

/// The character that stands for the digit value `d`: `'0'` to `'9'` for
/// zero to nine, then `'a'` to `'z'` for ten to thirty-five.
pub open spec fn digit_char(d: nat) -> char {
    if d < 10 {
        (d + 48) as char
    } else {
        (d + 87) as char
    }
}

/// The digit value that the character `c` stands for, and 36 for a
/// character that is no digit.
pub open spec fn char_digit(c: char) -> nat {
    if 48 <= c as int <= 57 {
        (c as int - 48) as nat
    } else if 97 <= c as int <= 122 {
        (c as int - 87) as nat
    } else {
        36
    }
}

/// The digits of `value` in `radix`, most significant first, with no
/// leading zero; zero itself is the single digit `'0'`.
pub open spec fn numeral(value: nat, radix: nat) -> Seq<char>
    decreases value,
    via numeral_terminates
{
    if radix < 2 || value < radix {
        seq![digit_char(value)]
    } else {
        numeral(value / radix, radix).push(digit_char(value % radix))
    }
}

#[via_fn]
proof fn numeral_terminates(value: nat, radix: nat) {
    if !(radix < 2 || value < radix) {
        lemma_div_decreases(value as int, radix as int);
    }
}

/// How many digits `value` takes in `radix`: one for a value below the
/// radix, and one more for each further division by the radix.
pub open spec fn digit_count(value: nat, radix: nat) -> nat
    decreases value,
    via digit_count_terminates
{
    if radix < 2 || value < radix {
        1
    } else {
        1 + digit_count(value / radix, radix)
    }
}

#[via_fn]
proof fn digit_count_terminates(value: nat, radix: nat) {
    if !(radix < 2 || value < radix) {
        lemma_div_decreases(value as int, radix as int);
    }
}

/// The number that the digits `text` spell in `radix`, read from the most
/// significant digit down.
pub open spec fn numeral_value(text: Seq<char>, radix: nat) -> nat
    decreases text.len(),
{
    if text.len() == 0 {
        0
    } else {
        numeral_value(text.drop_last(), radix) * radix + char_digit(text.last())
    }
}

/// A run of `count` zero digits.
pub open spec fn zeros(count: nat) -> Seq<char> {
    Seq::new(count, |i: int| '0')
}

/// `digits` with zeros put in front until there are `width` characters. A
/// text that is already that long is left as it is: the width is a floor.
pub open spec fn zero_padded(digits: Seq<char>, width: nat) -> Seq<char> {
    if digits.len() >= width {
        digits
    } else {
        zeros((width - digits.len()) as nat) + digits
    }
}

/// The text of `value` in `radix`, at least `width` characters wide.
pub open spec fn rendering(value: nat, radix: nat, width: nat) -> Seq<char> {
    zero_padded(numeral(value, radix), width)
}

/// The length of `rendering`: the width, or the count of digits where
/// that is larger.
pub open spec fn rendering_len(value: nat, radix: nat, width: nat) -> nat {
    if digit_count(value, radix) >= width {
        digit_count(value, radix)
    } else {
        width
    }
}

/// Formats `value` with `radix_fmt::radix` and takes the text through the
/// `Display` of what that returns. For a `u128` and a base from 2 to 36
/// the outside crate writes the digits of the value in that base, most
/// significant first, with lowercase letters for the digits from ten up
/// and a single `0` for zero; the contract says exactly that. A base
/// outside the range makes the outside function panic, so it is not
/// admitted.
#[verifier::external_body]
fn radix_numeral(value: u128, radix: u8) -> (text: String)
    requires
        radix_in_range(radix as nat),
    ensures
        text@ == numeral(value as nat, radix as nat),
{
    radix_fmt::radix(value, radix).to_string()
}

/// Writes `value` in `radix` and pads it with zeros on the left to
/// `width` characters. A longer text is never cut. A radix below 2 or
/// above 36 is refused.
pub fn render_digits(value: u128, radix: u8, width: usize) -> (made: Result<String, ConfigError>)
    ensures
        radix_in_range(radix as nat) ==> made is Ok && made->Ok_0@ == rendering(
            value as nat,
            radix as nat,
            width as nat,
        ),
        !radix_in_range(radix as nat) ==> made == Err::<String, ConfigError>(
            ConfigError::RadixOutOfRange,
        ),
{
    if radix < MIN_RADIX || radix > MAX_RADIX {
        return Err(ConfigError::RadixOutOfRange);
    }
    let digits = radix_numeral(value, radix);
    Ok(pad_with_zeros(digits, width))
}

/// Puts zeros in front of `digits` until the text is `width` characters
/// long.
pub fn pad_with_zeros(digits: String, width: usize) -> (text: String)
    ensures
        text@ == zero_padded(digits@, width as nat),
{
    let len: usize = digits.as_str().unicode_len();
    if len >= width {
        return digits;
    }
    let mut text = String::new();
    let mut have: usize = len;
    while have < width
        invariant
            len <= have <= width,
            text@ == zeros((have - len) as nat),
        decreases width - have,
    {
        proof {
            reveal_strlit("0");
        }
        text.append("0");
        have = have + 1;
        assert(text@ =~= zeros((have - len) as nat));
    }
    text.append(digits.as_str());
    text
}

/// A numeral has as many characters as the value has digits.
pub proof fn lemma_numeral_len(value: nat, radix: nat)
    ensures
        numeral(value, radix).len() == digit_count(value, radix),
    decreases value,
{
    if !(radix < 2 || value < radix) {
        lemma_div_decreases(value as int, radix as int);
        lemma_numeral_len(value / radix, radix);
    }
}

/// The rendered text is as long as the wider of the width and the count
/// of digits.
pub proof fn lemma_rendering_len(value: nat, radix: nat, width: nat)
    ensures
        rendering(value, radix, width).len() == rendering_len(value, radix, width),
{
    lemma_numeral_len(value, radix);
}

/// Each digit character stands for the digit value it was made from.
pub proof fn lemma_char_digit_of_digit_char(d: nat)
    requires
        d < 36,
    ensures
        char_digit(digit_char(d)) == d,
{
}

/// Reading a numeral back in its radix gives the value it was written
/// from.
pub proof fn lemma_numeral_round_trip(value: nat, radix: nat)
    requires
        radix_in_range(radix),
    ensures
        numeral_value(numeral(value, radix), radix) == value,
    decreases value,
{
    let text = numeral(value, radix);
    if value < radix {
        lemma_char_digit_of_digit_char(value);
        assert(text.drop_last() =~= Seq::<char>::empty());
        assert(numeral_value(text.drop_last(), radix) == 0);
    } else {
        let high = value / radix;
        let low = value % radix;
        lemma_div_decreases(value as int, radix as int);
        lemma_mod_bound(value as int, radix as int);
        lemma_fundamental_div_mod(value as int, radix as int);
        lemma_numeral_round_trip(high, radix);
        lemma_char_digit_of_digit_char(low);
        assert(text.drop_last() =~= numeral(high, radix));
        assert(text.last() == digit_char(low));
        assert(high * radix == radix * high) by (nonlinear_arith);
    }
}

/// Zeros in front of a text do not change the number it spells.
pub proof fn lemma_leading_zeros_keep_value(count: nat, text: Seq<char>, radix: nat)
    ensures
        numeral_value(zeros(count) + text, radix) == numeral_value(text, radix),
    decreases text.len(), count,
{
    let whole = zeros(count) + text;
    if text.len() > 0 {
        lemma_leading_zeros_keep_value(count, text.drop_last(), radix);
        assert(whole.drop_last() =~= zeros(count) + text.drop_last());
        assert(whole.last() == text.last());
    } else if count > 0 {
        lemma_leading_zeros_keep_value((count - 1) as nat, text, radix);
        assert(whole.drop_last() =~= zeros((count - 1) as nat) + text);
        assert(whole.last() == '0');
        assert(numeral_value(whole.drop_last(), radix) * radix == 0) by (nonlinear_arith)
            requires
                numeral_value(whole.drop_last(), radix) == 0,
        ;
    } else {
        assert(whole =~= text);
    }
}

/// Reading the rendered text back in its radix gives the value that was
/// rendered, whatever the width: padding costs nothing.
pub proof fn lemma_rendering_round_trip(value: nat, radix: nat, width: nat)
    requires
        radix_in_range(radix),
    ensures
        numeral_value(rendering(value, radix, width), radix) == value,
{
    let digits = numeral(value, radix);
    lemma_numeral_round_trip(value, radix);
    if digits.len() < width {
        lemma_leading_zeros_keep_value((width - digits.len()) as nat, digits, radix);
    }
}

/// Every character of the rendered text is a digit of the radix: `0` to
/// `9` or a lowercase letter, with a value below the radix.
pub proof fn lemma_rendering_alphabet(value: nat, radix: nat, width: nat)
    requires
        radix_in_range(radix),
    ensures
        forall|i: int|
            0 <= i < rendering(value, radix, width).len() ==> char_digit(
                #[trigger] rendering(value, radix, width)[i],
            ) < radix,
{
    lemma_numeral_alphabet(value, radix);
}

/// Every character of a numeral is a digit of its radix.
pub proof fn lemma_numeral_alphabet(value: nat, radix: nat)
    requires
        radix_in_range(radix),
    ensures
        forall|i: int|
            0 <= i < numeral(value, radix).len() ==> char_digit(#[trigger] numeral(value, radix)[i])
                < radix,
    decreases value,
{
    let text = numeral(value, radix);
    if value < radix {
        lemma_char_digit_of_digit_char(value);
    } else {
        let high = value / radix;
        let low = value % radix;
        lemma_div_decreases(value as int, radix as int);
        lemma_mod_bound(value as int, radix as int);
        lemma_numeral_alphabet(high, radix);
        lemma_char_digit_of_digit_char(low);
        assert forall|i: int| 0 <= i < text.len() implies char_digit(#[trigger] text[i])
            < radix by {
            if i < text.len() - 1 {
                assert(text[i] == numeral(high, radix)[i]);
            }
        }
    }
}

} // verus!
