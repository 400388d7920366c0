//! Prices, held as the bits of an IEEE 754 binary64 number.

use vstd::prelude::*;

verus! {

/// A price or a difference of prices. The bits are those of an IEEE 754 binary64 number: the
/// sign on top, then the exponent, then the fraction.
#[derive(Clone, Copy, Debug, PartialEq, Eq, Structural)]
pub struct Price {
    pub bits: u64,
}

impl Price {
    /// The bits below the sign.
    pub open spec fn magnitude(self) -> int {
        self.bits as int % 0x8000_0000_0000_0000
    }

    /// Whether the sign bit is set.
    pub open spec fn has_minus(self) -> bool {
        self.bits >= 0x8000_0000_0000_0000
    }

    /// The sign of the number: -1, 0 or 1, and none where the bits are no number. Both zeros
    /// have the sign 0; a magnitude above that of infinity is no number.
    pub open spec fn sign(self) -> Option<int> {
        if self.magnitude() > 0x7ff0_0000_0000_0000 {
            None
        } else if self.magnitude() == 0 {
            Some(0)
        } else if self.has_minus() {
            Some(-1)
        } else {
            Some(1)
        }
    }

    /// Whether the number is greater than zero.
    pub open spec fn is_above_zero(self) -> bool {
        self.sign() == Some(1int)
    }

    /// Whether the number is zero or less.
    pub open spec fn is_at_most_zero(self) -> bool {
        self.sign() == Some(0int) || self.sign() == Some(-1int)
    }

    /// Whether the number is zero or greater.
    pub open spec fn is_at_least_zero(self) -> bool {
        self.sign() == Some(0int) || self.sign() == Some(1int)
    }

    /// Zero.
    pub fn zero() -> (r: Self)
        ensures
            r.bits == 0,
            r.sign() == Some(0int),
    {
        Price { bits: 0 }
    }

    /// Whether the number is greater than zero.
    pub fn above_zero(&self) -> (r: bool)
        ensures
            r == self.is_above_zero(),
    {
        0 < self.bits && self.bits <= 0x7ff0_0000_0000_0000
    }

    /// Whether the number is less than zero.
    pub fn below_zero(&self) -> (r: bool)
        ensures
            r == (self.sign() == Some(-1int)),
    {
        0x8000_0000_0000_0000 < self.bits && self.bits <= 0xfff0_0000_0000_0000
    }

    /// Whether the number is zero or less.
    pub fn at_most_zero(&self) -> (r: bool)
        ensures
            r == self.is_at_most_zero(),
    {
        self.bits == 0 || (0x8000_0000_0000_0000 <= self.bits && self.bits
            <= 0xfff0_0000_0000_0000)
    }

    /// Whether the number is zero or greater.
    pub fn at_least_zero(&self) -> (r: bool)
        ensures
            r == self.is_at_least_zero(),
    {
        self.bits <= 0x7ff0_0000_0000_0000 || self.bits == 0x8000_0000_0000_0000
    }
}

/// Of a number, exactly one of "above zero" and "at most zero" holds; of bits that are no
/// number, neither does.
pub proof fn price_is_on_one_side(p: Price)
    ensures
        p.sign() is Some <==> (p.is_above_zero() || p.is_at_most_zero()),
        !(p.is_above_zero() && p.is_at_most_zero()),
        p.is_above_zero() ==> p.is_at_least_zero(),
{
}

/// The bits of a number say on which side of zero it is: above it from the smallest magnitude up to
/// infinity, below it likewise with the sign on top, at it for the two zeros, and nowhere beyond
/// infinity.
pub proof fn price_bits_tell_side(p: Price)
    ensures
        p.is_above_zero() <==> 0 < p.bits <= 0x7ff0_0000_0000_0000,
        p.sign() == Some(-1int) <==> 0x8000_0000_0000_0000 < p.bits <= 0xfff0_0000_0000_0000,
        p.sign() == Some(0int) <==> p.bits == 0 || p.bits == 0x8000_0000_0000_0000,
        p.is_at_most_zero() <==> p.bits == 0 || 0x8000_0000_0000_0000 <= p.bits
            <= 0xfff0_0000_0000_0000,
        p.is_at_least_zero() <==> p.bits <= 0x7ff0_0000_0000_0000 || p.bits
            == 0x8000_0000_0000_0000,
{
}

/// Turning the sign of a number around exchanges the two sides of zero.
pub proof fn opposite_price_is_on_other_side(p: Price, opposite: Price)
    requires
        p.bits < 0x8000_0000_0000_0000,
        opposite.bits == p.bits + 0x8000_0000_0000_0000,
    ensures
        p.is_above_zero() <==> opposite.sign() == Some(-1int),
        p.is_at_least_zero() <==> opposite.is_at_most_zero(),
        p.is_at_most_zero() <==> opposite.is_above_zero() || opposite.sign() == Some(0int),
        p.sign() is None <==> opposite.sign() is None,
{
}

} // verus!
