use vstd::prelude::*;

verus! {

/// Why a ratio, a unit or a formatter was refused when it was built.
///
/// Every failure of this crate happens while a configuration is put
/// together; rendering with a value that was built cannot fail.
#[derive(Clone, Copy, Debug, PartialEq, Eq, Structural)]
pub enum ConfigError {
    /// A ratio was asked for with a denominator of zero.
    ZeroDenominator,
    /// A unit was asked for with a radix below 2 or above 36.
    RadixOutOfRange,
    /// A unit was asked for with a place value of zero.
    ZeroPlaceValue,
    /// The base ratio is so large that multiplying it by a millisecond
    /// count could leave the range of the integers used for the total.
    ArithmeticOverflow,
}

impl ConfigError {
    /// What `message` says of each error.
    pub open spec fn message_text(self) -> Seq<char> {
        match self {
            ConfigError::ZeroDenominator => "the denominator of a ratio is zero"@,
            ConfigError::RadixOutOfRange => "the radix of a unit is not between 2 and 36"@,
            ConfigError::ZeroPlaceValue => "the place value of a unit is zero"@,
            ConfigError::ArithmeticOverflow => "the base ratio is too large to be multiplied by a count of milliseconds"@,
        }
    }

    /// A sentence that says what was wrong.
    pub fn message(&self) -> (text: &'static str)
        ensures
            text@ == self.message_text(),
    {
        match self {
            ConfigError::ZeroDenominator => "the denominator of a ratio is zero",
            ConfigError::RadixOutOfRange => "the radix of a unit is not between 2 and 36",
            ConfigError::ZeroPlaceValue => "the place value of a unit is zero",
            ConfigError::ArithmeticOverflow => "the base ratio is too large to be multiplied by a count of milliseconds",
        }
    }
}

} // verus!
