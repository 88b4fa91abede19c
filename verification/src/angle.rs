//! Exact shares and exact angles.

use vstd::prelude::*;

verus! {

/// The share `part / whole` that one slice has of a chart.
#[derive(Clone, Copy, Debug, PartialEq, Eq, Structural)]
pub struct Proportion {
    pub part: u64,
    pub whole: u128,
}

impl Proportion {
    /// The share lies between zero and one.
    pub open spec fn well_formed(&self) -> bool {
        0 < self.whole && self.part <= self.whole
    }

    /// The share is strictly more than one half.
    pub open spec fn spec_exceeds_half(&self) -> bool {
        2 * self.part > self.whole
    }

    /// Whether the share is strictly more than one half. A share of exactly
    /// one half does not exceed it.
    #[verifier::when_used_as_spec(spec_exceeds_half)]
    pub fn exceeds_half(&self) -> (r: bool)
        ensures
            r == self.spec_exceeds_half(),
    {
        let part: u128 = self.part as u128;
        let twice: u128 = 2 * part;
        twice > self.whole
    }
}

/// An angle, as the fraction `num / den` of a full revolution. It stands for
/// `-2π · num / den` radians: zero lies on the positive major axis and the
/// angle grows in the negative angular direction.
#[derive(Clone, Copy, Debug, PartialEq, Eq, Structural)]
pub struct Turn {
    pub num: u128,
    pub den: u128,
}

impl Turn {
    /// The fraction is defined and does not go beyond one revolution.
    pub open spec fn well_formed(&self) -> bool {
        0 < self.den && self.num <= self.den
    }

    /// The angle is zero.
    pub open spec fn is_start(&self) -> bool {
        self.num == 0
    }

    /// The angle is one full revolution.
    pub open spec fn is_full(&self) -> bool {
        self.num == self.den
    }

    /// The angle reached from `self` by sweeping over `weight` of a revolution.
    pub open spec fn spec_advance(&self, weight: Proportion) -> Turn {
        Turn { num: (self.num + weight.part) as u128, den: self.den }
    }

    /// The zero angle over the denominator `den`.
    pub fn start(den: u128) -> (r: Turn)
        ensures
            r == (Turn { num: 0, den }),
    {
        Turn { num: 0, den }
    }

    /// Sweeps on from `self` over `weight` of a revolution.
    pub fn advance(&self, weight: &Proportion) -> (r: Turn)
        requires
            self.den == weight.whole,
            self.num + weight.part <= self.den,
        ensures
            r == self.spec_advance(*weight),
            r.num == self.num + weight.part,
            r.den == self.den,
    {
        let part: u128 = weight.part as u128;
        Turn { num: self.num + part, den: self.den }
    }
}

} // verus!
