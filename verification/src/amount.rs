use vstd::prelude::*;

verus! {

/// The bit pattern of positive infinity, the largest pattern of a positive double.
pub const POSITIVE_INFINITY_BITS: u64 = 0x7FF0_0000_0000_0000;

/// A sum of money, held as the bit pattern of an IEEE-754 double.
///
/// The library never computes with an amount: it only carries it and asks
/// whether it is greater than zero, which the bit pattern alone decides.
#[derive(Clone, Copy, Debug, PartialEq, Eq, Structural)]
pub struct Amount {
    pub bits: u64,
}

impl Amount {
    /// Whether the double with these bits is greater than zero: the sign bit
    /// is clear, the value is not zero and it is not a NaN.
    pub open spec fn positive(self) -> bool {
        0 < self.bits && self.bits <= POSITIVE_INFINITY_BITS
    }

    pub fn from_bits(bits: u64) -> (r: Amount)
        ensures
            r.bits == bits,
    {
        Amount { bits }
    }

    pub fn to_bits(&self) -> (r: u64)
        ensures
            r == self.bits,
    {
        self.bits
    }

    pub fn is_positive(&self) -> (r: bool)
        ensures
            r == self.positive(),
    {
        0 < self.bits && self.bits <= POSITIVE_INFINITY_BITS
    }
}

} // verus!
