use vstd::prelude::*;
use vstd::std_specs::convert::TryFromSpecImpl;
use vstd::string::*;

use crate::digits::{radix_in_range, render_digits, rendering, MAX_RADIX, MIN_RADIX};
use crate::error::ConfigError;
use crate::ratio::{ExactRatio, Fraction};

verus! {

/// The radix of a unit that is built without one.
pub const DEFAULT_RADIX: u8 = 10;

/// The width of a unit that is built without one.
pub const DEFAULT_WIDTH: usize = 2;

/// One place of a mixed-radix system, as contracts speak of it.
pub struct UnitModel {
    /// The radix in which the place is written.
    pub radix: nat,
    /// The name of the place. It is never written out.
    pub label: Seq<char>,
    /// How many base units one step of this place is worth.
    pub place_value: nat,
    /// How many values the place runs through before it starts over;
    /// zero for a place that never starts over.
    pub modulus: nat,
    /// The least number of characters the place is written with.
    pub width: nat,
}

impl UnitModel {
    /// A place can be rendered when its radix is one that values can be
    /// written in and its place value is not zero.
    pub open spec fn wf(self) -> bool {
        radix_in_range(self.radix) && self.place_value > 0
    }

    /// How many whole steps of this place fit into `total`: the total
    /// divided by the place value, exactly, and then truncated.
    pub open spec fn steps(self, total: Fraction) -> nat {
        total.over(self.place_value).floor()
    }

    /// The digit of this place for `total`: its whole steps, taken modulo
    /// the modulus unless the modulus is zero.
    pub open spec fn digit(self, total: Fraction) -> nat {
        if self.modulus == 0 {
            self.steps(total)
        } else {
            self.steps(total) % self.modulus
        }
    }

    /// The text of the digit value `value` in this place's radix and
    /// width.
    pub open spec fn rendered(self, value: nat) -> Seq<char> {
        rendering(value, self.radix, self.width)
    }

    /// The text of this place for `total`.
    pub open spec fn text(self, total: Fraction) -> Seq<char> {
        self.rendered(self.digit(total))
    }
}

/// A unit of time to display: one place of a mixed-radix system. It only
/// makes sense together with the base unit of the formatter it is part
/// of, in which its place value is counted.
#[derive(Debug)]
pub struct TimeUnit<'u> {
    /// The radix in which this unit is written.
    radix: u8,
    /// The name of this unit.
    name: &'u str,
    /// The worth of one step of this unit, in base units.
    value: u32,
    /// How many of this unit there are before the next larger one steps;
    /// zero where there is no such bound.
    limit: u32,
    /// The least number of characters to write this unit with.
    width: usize,
}

impl<'u> View for TimeUnit<'u> {
    type V = UnitModel;

    closed spec fn view(&self) -> UnitModel {
        UnitModel {
            radix: self.radix as nat,
            label: self.name@,
            place_value: self.value as nat,
            modulus: self.limit as nat,
            width: self.width as nat,
        }
    }
}

impl<'u> Clone for TimeUnit<'u> {
    fn clone(&self) -> (copy: Self)
        ensures
            copy == *self,
    {
        proof {
            use_type_invariant(self);
        }
        TimeUnit {
            radix: self.radix,
            name: self.name,
            value: self.value,
            limit: self.limit,
            width: self.width,
        }
    }
}

impl<'u> TimeUnit<'u> {
    #[verifier::type_invariant]
    spec fn renderable(self) -> bool {
        MIN_RADIX <= self.radix <= MAX_RADIX && self.value > 0
    }

    /// What building a unit from these parts gives: the unit, or the
    /// reason why there is none. The radix is looked at first.
    pub closed spec fn built(radix: u8, name: &'u str, value: u32, limit: u32, width: usize) -> Result<
        Self,
        ConfigError,
    > {
        if !(MIN_RADIX <= radix <= MAX_RADIX) {
            Err(ConfigError::RadixOutOfRange)
        } else if value == 0 {
            Err(ConfigError::ZeroPlaceValue)
        } else {
            Ok(TimeUnit { radix, name, value, limit, width })
        }
    }

    /// What `built` holds: an error for a radix out of range, then for a
    /// place value of zero, and otherwise the unit with exactly these
    /// parts.
    pub proof fn lemma_built(radix: u8, name: &'u str, value: u32, limit: u32, width: usize)
        ensures
            !radix_in_range(radix as nat) ==> Self::built(radix, name, value, limit, width) == Err::<
                Self,
                ConfigError,
            >(ConfigError::RadixOutOfRange),
            radix_in_range(radix as nat) && value == 0 ==> Self::built(
                radix,
                name,
                value,
                limit,
                width,
            ) == Err::<Self, ConfigError>(ConfigError::ZeroPlaceValue),
            radix_in_range(radix as nat) && value != 0 ==> Self::built(
                radix,
                name,
                value,
                limit,
                width,
            ) is Ok && Self::built(radix, name, value, limit, width)->Ok_0@ == (UnitModel {
                radix: radix as nat,
                label: name@,
                place_value: value as nat,
                modulus: limit as nat,
                width: width as nat,
            }),
    {
    }

    /// Builds a decimal unit. A place value of zero is refused.
    pub fn new(name: &'u str, value: u32, limit: u32, width: usize) -> (made: Result<
        Self,
        ConfigError,
    >)
        ensures
            made == Self::built(DEFAULT_RADIX, name, value, limit, width),
            value == 0 ==> made == Err::<Self, ConfigError>(ConfigError::ZeroPlaceValue),
            value != 0 ==> made is Ok && made->Ok_0@ == (UnitModel {
                radix: DEFAULT_RADIX as nat,
                label: name@,
                place_value: value as nat,
                modulus: limit as nat,
                width: width as nat,
            }),
    {
        Self::with_radix(DEFAULT_RADIX, name, value, limit, width)
    }

    /// Builds a unit that is written in `radix`. A radix below 2 or above
    /// 36 is refused; with a radix in range, a place value of zero is
    /// refused.
    pub fn with_radix(radix: u8, name: &'u str, value: u32, limit: u32, width: usize) -> (made:
        Result<Self, ConfigError>)
        ensures
            made == Self::built(radix, name, value, limit, width),
            !radix_in_range(radix as nat) ==> made == Err::<Self, ConfigError>(
                ConfigError::RadixOutOfRange,
            ),
            radix_in_range(radix as nat) && value == 0 ==> made == Err::<Self, ConfigError>(
                ConfigError::ZeroPlaceValue,
            ),
            radix_in_range(radix as nat) && value != 0 ==> made is Ok && made->Ok_0@ == (UnitModel {
                radix: radix as nat,
                label: name@,
                place_value: value as nat,
                modulus: limit as nat,
                width: width as nat,
            }),
    {
        if radix < MIN_RADIX || radix > MAX_RADIX {
            Err(ConfigError::RadixOutOfRange)
        } else if value == 0 {
            Err(ConfigError::ZeroPlaceValue)
        } else {
            Ok(TimeUnit { radix, name, value, limit, width })
        }
    }

    /// The radix in which this unit is written, from 2 to 36.
    pub fn radix(&self) -> (radix: u8)
        ensures
            radix == self@.radix,
            radix_in_range(radix as nat),
    {
        proof {
            use_type_invariant(self);
        }
        self.radix
    }

    /// The name of this unit.
    pub fn name(&self) -> (name: &'u str)
        ensures
            name@ == self@.label,
    {
        self.name
    }

    /// The worth of one step of this unit in base units, which is never
    /// zero.
    pub fn value(&self) -> (value: u32)
        ensures
            value == self@.place_value,
            value > 0,
    {
        proof {
            use_type_invariant(self);
        }
        self.value
    }

    /// The modulus of this unit; zero where it has none.
    pub fn limit(&self) -> (limit: u32)
        ensures
            limit == self@.modulus,
    {
        self.limit
    }

    /// The least number of characters this unit is written with.
    pub fn width(&self) -> (width: usize)
        ensures
            width == self@.width,
    {
        self.width
    }

    /// The digit of this unit for `total`. The total is divided by the
    /// place value as an exact ratio and truncated once; the modulus, if
    /// there is one, is taken of the whole number that results.
    pub fn digit(&self, total: ExactRatio) -> (d: u128)
        ensures
            d == self@.digit(total@),
    {
        proof {
            use_type_invariant(self);
        }
        let steps: u128 = total.floor_over(self.value as u128);
        if self.limit == 0 {
            steps
        } else {
            steps % (self.limit as u128)
        }
    }

    /// Renders the digit value `value` in this unit's radix, padded with
    /// zeros to this unit's width.
    pub fn render(&self, value: u128) -> (text: String)
        ensures
            text@ == self@.rendered(value as nat),
    {
        proof {
            use_type_invariant(self);
        }
        render_digits(value, self.radix, self.width).unwrap()
    }

    /// Renders the digit value `value` as `render` does, onto the end of
    /// `out`.
    pub fn render_fmt(&self, out: &mut String, value: u128)
        ensures
            final(out)@ == old(out)@ + self@.rendered(value as nat),
    {
        let text = self.render(value);
        out.append(text.as_str());
    }
}

impl<'u> TryFrom<(&'u str, u32, u32)> for TimeUnit<'u> {
    type Error = ConfigError;

    /// A decimal unit of the default width, from its name, its place
    /// value and its modulus.
    fn try_from(parts: (&'u str, u32, u32)) -> (made: Result<Self, ConfigError>) {
        Self::new(parts.0, parts.1, parts.2, DEFAULT_WIDTH)
    }
}

impl<'u> TryFromSpecImpl<(&'u str, u32, u32)> for TimeUnit<'u> {
    open spec fn obeys_try_from_spec() -> bool {
        true
    }

    open spec fn try_from_spec(parts: (&'u str, u32, u32)) -> Result<Self, ConfigError> {
        Self::built(DEFAULT_RADIX, parts.0, parts.1, parts.2, DEFAULT_WIDTH)
    }
}

impl<'u> TryFrom<(u8, &'u str, u32, u32)> for TimeUnit<'u> {
    type Error = ConfigError;

    /// A unit of the default width, from its radix, its name, its place
    /// value and its modulus.
    fn try_from(parts: (u8, &'u str, u32, u32)) -> (made: Result<Self, ConfigError>) {
        Self::with_radix(parts.0, parts.1, parts.2, parts.3, DEFAULT_WIDTH)
    }
}

impl<'u> TryFromSpecImpl<(u8, &'u str, u32, u32)> for TimeUnit<'u> {
    open spec fn obeys_try_from_spec() -> bool {
        true
    }

    open spec fn try_from_spec(parts: (u8, &'u str, u32, u32)) -> Result<Self, ConfigError> {
        Self::built(parts.0, parts.1, parts.2, parts.3, DEFAULT_WIDTH)
    }
}

impl<'u> TryFrom<(&'u str, u32, u32, usize)> for TimeUnit<'u> {
    type Error = ConfigError;

    /// A decimal unit, from its name, its place value, its modulus and
    /// its width.
    fn try_from(parts: (&'u str, u32, u32, usize)) -> (made: Result<Self, ConfigError>) {
        Self::new(parts.0, parts.1, parts.2, parts.3)
    }
}

impl<'u> TryFromSpecImpl<(&'u str, u32, u32, usize)> for TimeUnit<'u> {
    open spec fn obeys_try_from_spec() -> bool {
        true
    }

    open spec fn try_from_spec(parts: (&'u str, u32, u32, usize)) -> Result<Self, ConfigError> {
        Self::built(DEFAULT_RADIX, parts.0, parts.1, parts.2, parts.3)
    }
}

impl<'u> TryFrom<(u8, &'u str, u32, u32, usize)> for TimeUnit<'u> {
    type Error = ConfigError;

    /// A unit, from its radix, its name, its place value, its modulus and
    /// its width.
    fn try_from(parts: (u8, &'u str, u32, u32, usize)) -> (made: Result<Self, ConfigError>) {
        Self::with_radix(parts.0, parts.1, parts.2, parts.3, parts.4)
    }
}

impl<'u> TryFromSpecImpl<(u8, &'u str, u32, u32, usize)> for TimeUnit<'u> {
    open spec fn obeys_try_from_spec() -> bool {
        true
    }

    open spec fn try_from_spec(parts: (u8, &'u str, u32, u32, usize)) -> Result<Self, ConfigError> {
        Self::built(parts.0, parts.1, parts.2, parts.3, parts.4)
    }
}

} // verus!
