use vstd::prelude::*;
use vstd::arithmetic::div_mod::lemma_basic_div;
use vstd::arithmetic::mul::lemma_mul_strictly_positive;

use crate::error::ConfigError;

verus! {

/// A non-negative fraction, as contracts speak of it: a numerator over a
/// denominator, both unbounded. It is not kept in lowest terms; two
/// fractions of equal worth may differ in their parts.
pub struct Fraction {
    pub numer: nat,
    pub denom: nat,
}

impl Fraction {
    /// A fraction is well formed when its denominator is not zero.
    pub open spec fn wf(self) -> bool {
        self.denom > 0
    }

    /// The fraction times a whole number: the numerator is multiplied, the
    /// denominator is kept, and nothing is reduced.
    pub open spec fn times(self, k: nat) -> Fraction {
        Fraction { numer: self.numer * k, denom: self.denom }
    }

    /// The fraction divided by a whole number: the denominator is
    /// multiplied and the numerator is kept.
    pub open spec fn over(self, p: nat) -> Fraction {
        Fraction { numer: self.numer, denom: self.denom * p }
    }

    /// The largest whole number that is not above the fraction.
    pub open spec fn floor(self) -> nat {
        (self.numer / self.denom) as nat
    }

    /// Whether the whole number `k` is at most the fraction.
    pub open spec fn at_least(self, k: nat) -> bool {
        k * self.denom <= self.numer
    }

    /// Whether the fraction is strictly below the whole number `k`.
    pub open spec fn below(self, k: nat) -> bool {
        self.numer < k * self.denom
    }
}

/// An exact fraction of two machine integers with a denominator that is
/// never zero. It carries both the conversion ratio of a formatter (base
/// units per millisecond) and the total that the ratio yields for a
/// millisecond count.
#[derive(Clone, Copy, Debug)]
pub struct ExactRatio {
    numer: u128,
    denom: u128,
}

impl View for ExactRatio {
    type V = Fraction;

    closed spec fn view(&self) -> Fraction {
        Fraction { numer: self.numer as nat, denom: self.denom as nat }
    }
}

impl ExactRatio {
    #[verifier::type_invariant]
    spec fn nonzero_denominator(self) -> bool {
        self.denom > 0
    }

    /// Builds the ratio `numer / denom` as given, without reducing it.
    /// A denominator of zero is refused.
    pub fn new(numer: u128, denom: u128) -> (made: Result<ExactRatio, ConfigError>)
        ensures
            denom == 0 ==> made == Err::<ExactRatio, ConfigError>(ConfigError::ZeroDenominator),
            denom != 0 ==> made is Ok && made->Ok_0@ == (Fraction {
                numer: numer as nat,
                denom: denom as nat,
            }),
    {
        if denom == 0 {
            Err(ConfigError::ZeroDenominator)
        } else {
            Ok(ExactRatio { numer, denom })
        }
    }

    /// The numerator.
    pub fn numer(&self) -> (n: u128)
        ensures
            n == self@.numer,
    {
        self.numer
    }

    /// The denominator, which is never zero.
    pub fn denom(&self) -> (d: u128)
        ensures
            d == self@.denom,
            d > 0,
    {
        proof {
            use_type_invariant(self);
        }
        self.denom
    }

    /// The ratio times `k`, exactly: `None` when, and only when, the new
    /// numerator would not fit.
    pub fn checked_times(&self, k: u128) -> (product: Option<ExactRatio>)
        ensures
            self@.numer * k <= u128::MAX ==> product is Some && product->Some_0@ == self@.times(
                k as nat,
            ),
            self@.numer * k > u128::MAX ==> product is None,
    {
        proof {
            use_type_invariant(self);
        }
        match self.numer.checked_mul(k) {
            Some(numer) => Some(ExactRatio { numer, denom: self.denom }),
            None => None,
        }
    }

    /// The whole part of the ratio divided by `p`. The quotient is formed
    /// exactly, by multiplying the denominator, and truncated once. Where
    /// the multiplied denominator would not fit, it is above every
    /// numerator that does, and the whole part is zero.
    pub fn floor_over(&self, p: u128) -> (whole: u128)
        requires
            p > 0,
        ensures
            whole == self@.over(p as nat).floor(),
    {
        proof {
            use_type_invariant(self);
        }
        match self.denom.checked_mul(p) {
            Some(denom) => {
                proof {
                    lemma_mul_strictly_positive(self.denom as int, p as int);
                }
                self.numer / denom
            },
            None => {
                proof {
                    lemma_basic_div(self.numer as int, self.denom * p);
                }
                0
            },
        }
    }
}

} // verus!
