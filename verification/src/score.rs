//! Grading scores.
//!
//! A score is a single-precision binary floating-point number. The library
//! never computes with scores; it stores them, hands them on and compares
//! them with the pass mark. It therefore holds a score by its IEEE 754 bit
//! pattern, on which the order of the numbers can be read off exactly.

use vstd::prelude::*;

verus! {

/// Bit pattern of the number zero.
pub const ZERO_BITS: u32 = 0x0000_0000;

/// Bit pattern of the number one, the score of a full match.
pub const ONE_BITS: u32 = 0x3F80_0000;

/// Bit pattern of the nominal score of work that is handed in without being
/// graded: the number one, the top of the range of scores.
pub const NOMINAL_BITS: u32 = 0x3F80_0000;

/// Bit pattern of the pass mark, the single-precision number nearest to four
/// tenths. A graded free-text answer fails below it.
pub const PASS_MARK_BITS: u32 = 0x3ECC_CCCD;

/// A score, held by the bit pattern of a single-precision number.
#[derive(Clone, Copy, Debug, PartialEq, Eq, Structural)]
pub struct Score {
    pub bits: u32,
}

impl Score {
    /// The pattern without its sign bit.
    pub open spec fn magnitude(self) -> int {
        self.bits as int % 0x8000_0000
    }

    /// Whether the sign bit is set.
    pub open spec fn is_signed(self) -> bool {
        self.bits >= 0x8000_0000
    }

    /// Whether the pattern is not a number: an exponent of all ones with a
    /// fraction other than zero.
    pub open spec fn is_nan(self) -> bool {
        self.magnitude() > 0x7F80_0000
    }

    /// The place of a number in the order of all numbers: patterns of
    /// non-negative numbers grow with the number, those of negative numbers
    /// with its distance from zero, and both zeros share one place.
    pub open spec fn rank(self) -> int {
        if self.is_signed() {
            -self.magnitude()
        } else {
            self.magnitude()
        }
    }

    /// The order of the numbers: nothing is below or above what is not a
    /// number.
    pub open spec fn below(self, other: Score) -> bool {
        !self.is_nan() && !other.is_nan() && self.rank() < other.rank()
    }

    /// Whether the score lies in the range of scores, from zero to one.
    pub open spec fn in_range(self) -> bool {
        !self.is_nan() && 0 <= self.rank() <= ONE_BITS
    }

    /// Whether the score passes: it is not below the pass mark. What is not a
    /// number is below nothing, and so passes.
    pub open spec fn passes(self) -> bool {
        !self.below(Score { bits: PASS_MARK_BITS })
    }

    /// The score with the given bit pattern.
    pub fn from_bits(bits: u32) -> (score: Score)
        ensures
            score.bits == bits,
    {
        Score { bits }
    }

    /// The bit pattern of the score.
    pub fn to_bits(&self) -> (bits: u32)
        ensures
            bits == self.bits,
    {
        self.bits
    }

    /// The score zero.
    pub fn zero() -> (score: Score)
        ensures
            score.bits == ZERO_BITS,
    {
        Score { bits: ZERO_BITS }
    }

    /// The score one.
    pub fn one() -> (score: Score)
        ensures
            score.bits == ONE_BITS,
    {
        Score { bits: ONE_BITS }
    }

    /// The nominal score of work that is not graded.
    pub fn nominal() -> (score: Score)
        ensures
            score.bits == NOMINAL_BITS,
    {
        Score { bits: NOMINAL_BITS }
    }

    /// The pass mark.
    pub fn pass_mark() -> (score: Score)
        ensures
            score.bits == PASS_MARK_BITS,
    {
        Score { bits: PASS_MARK_BITS }
    }

    /// Whether `self` is a smaller number than `other`.
    pub fn is_below(&self, other: &Score) -> (less: bool)
        ensures
            less == self.below(*other),
    {
        let a: u32 = self.bits % 0x8000_0000;
        let b: u32 = other.bits % 0x8000_0000;
        if a > 0x7F80_0000 || b > 0x7F80_0000 {
            return false;
        }
        let a_signed = self.bits >= 0x8000_0000;
        let b_signed = other.bits >= 0x8000_0000;
        if a_signed && b_signed {
            b < a
        } else if a_signed {
            a > 0 || b > 0
        } else if b_signed {
            false
        } else {
            a < b
        }
    }

    /// Whether the score is at or above the pass mark.
    pub fn is_pass(&self) -> (pass: bool)
        ensures
            pass == self.passes(),
    {
        !self.is_below(&Score::pass_mark())
    }
}

} // verus!
