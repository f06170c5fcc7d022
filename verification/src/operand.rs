//! Operands as the session carries them.

use vstd::prelude::*;

verus! {

/// A double-precision number, held as the 64 bits of its IEEE 754 encoding:
/// the sign in the highest bit, then eleven bits of exponent and fifty-two of
/// fraction. The session never does arithmetic on an operand; it carries the
/// bits from where they were read to where they are used, and asks only
/// whether they stand for zero.
#[derive(Clone, Copy, Debug, PartialEq, Eq, Structural)]
pub struct Operand {
    pub bits: u64,
}

impl Operand {
    /// Whether the operand is exactly zero. Zero has two encodings, one for
    /// each sign; every other pattern is a nonzero number, an infinity or
    /// not a number.
    pub open spec fn is_zero(self) -> bool {
        self.bits == 0 || self.bits == 0x8000_0000_0000_0000
    }

    /// The operand with the encoding `bits`.
    pub fn from_bits(bits: u64) -> (r: Operand)
        ensures
            r.bits == bits,
    {
        Operand { bits }
    }

    /// The operand's encoding.
    pub fn to_bits(self) -> (r: u64)
        ensures
            r == self.bits,
    {
        self.bits
    }

    /// Tells whether the operand is exactly zero, of either sign.
    pub fn is_exactly_zero(self) -> (r: bool)
        ensures
            r == self.is_zero(),
    {
        self.bits == 0 || self.bits == 0x8000_0000_0000_0000
    }
}

} // verus!
