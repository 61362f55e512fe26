//! Double-precision numbers, held by their bits.

use vstd::prelude::*;
use vstd::std_specs::cmp::PartialEqSpecImpl;

verus! {

/// The bits of a double without its sign.
pub const MAGNITUDE_MASK: u64 = 0x7fff_ffff_ffff_ffff;

/// The magnitude bits of infinity: every magnitude above is not a number.
pub const INFINITY_BITS: u64 = 0x7ff0_0000_0000_0000;

/// A double-precision number, held as its IEEE 754 bit pattern.
///
/// `==` compares two of them as numbers: a value that is not a number
/// equals nothing, itself included, and the two zeros are equal. In
/// contracts two doubles are the same when their bits are.
#[derive(Debug, Clone, Copy)]
pub struct Float64 {
    pub bits: u64,
}

impl Float64 {
    /// True when the bits stand for no number.
    pub open spec fn spec_is_nan(&self) -> bool {
        self.bits & MAGNITUDE_MASK > INFINITY_BITS
    }

    /// True when the bits stand for zero, of either sign.
    pub open spec fn spec_is_zero(&self) -> bool {
        self.bits & MAGNITUDE_MASK == 0
    }

    /// The number with the given bit pattern.
    pub fn from_bits(bits: u64) -> (r: Self)
        ensures
            r.bits == bits,
    {
        Self { bits }
    }

    /// The bit pattern of the number.
    pub fn to_bits(&self) -> (r: u64)
        ensures
            r == self.bits,
    {
        self.bits
    }

    /// True when the bits stand for no number.
    #[verifier::when_used_as_spec(spec_is_nan)]
    pub fn is_nan(&self) -> (r: bool)
        ensures
            r == self.spec_is_nan(),
    {
        self.bits & MAGNITUDE_MASK > INFINITY_BITS
    }

    /// True when the bits stand for zero, of either sign.
    #[verifier::when_used_as_spec(spec_is_zero)]
    pub fn is_zero(&self) -> (r: bool)
        ensures
            r == self.spec_is_zero(),
    {
        self.bits & MAGNITUDE_MASK == 0
    }
}

impl PartialEq for Float64 {
    fn eq(&self, other: &Self) -> (r: bool) {
        let same = self.bits == other.bits || (self.is_zero() && other.is_zero());
        !self.is_nan() && !other.is_nan() && same
    }
}

/// Two doubles are equal as numbers when neither is not a number, and they
/// have the same bits or are both zero.
impl PartialEqSpecImpl for Float64 {
    open spec fn obeys_eq_spec() -> bool {
        true
    }

    open spec fn eq_spec(&self, other: &Self) -> bool {
        let same = self.bits == other.bits || (self.spec_is_zero() && other.spec_is_zero());
        !self.spec_is_nan() && !other.spec_is_nan() && same
    }
}

} // verus!
