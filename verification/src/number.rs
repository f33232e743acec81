//! Numbers as the feed carries them: IEEE 754 binary64 values, held by their
//! bit pattern so that ordering and sign tests are plain integer arithmetic.

use vstd::prelude::*;

verus! {

/// The sign bit of a binary64 pattern.
pub const SIGN_BIT: u64 = 0x8000_0000_0000_0000;

/// The magnitude of infinity; every larger magnitude encodes a NaN.
pub const INFINITY_BITS: u64 = 0x7FF0_0000_0000_0000;

/// The rank shared by all NaNs: one above the rank of positive infinity.
pub const NAN_RANK: i64 = 0x7FF0_0000_0000_0001;

/// A price or a quantity.
///
/// Every 64-bit pattern is a number. Numbers are totally ordered by
/// [`Number::rank`]: numeric order on everything that is not a NaN, with
/// negative and positive zero equal, and all NaNs equal to each other and
/// above positive infinity.
#[derive(Clone, Copy, Debug)]
pub struct Number {
    pub bits: u64,
}

impl Number {
    /// The pattern with the sign bit cleared.
    pub open spec fn magnitude(self) -> u64 {
        if self.bits >= SIGN_BIT {
            (self.bits - SIGN_BIT) as u64
        } else {
            self.bits
        }
    }

    /// Whether the sign bit is set.
    pub open spec fn sign(self) -> bool {
        self.bits >= SIGN_BIT
    }

    /// Not a number: the magnitude lies above that of infinity.
    pub open spec fn spec_is_nan(self) -> bool {
        self.magnitude() > INFINITY_BITS
    }

    /// The position of the number in the total order. Two numbers occupy the
    /// same price level exactly when their ranks are equal.
    pub open spec fn spec_rank(self) -> i64 {
        if self.spec_is_nan() {
            NAN_RANK
        } else if self.sign() {
            (-(self.magnitude() as int)) as i64
        } else {
            self.magnitude() as i64
        }
    }

    /// Strictly greater than zero; false of both zeros and of every NaN.
    pub open spec fn spec_is_positive(self) -> bool {
        !self.spec_is_nan() && self.spec_rank() > 0
    }

    /// Positive zero, the quantity of a price that holds no level.
    pub open spec fn spec_zero() -> Number {
        Number { bits: 0 }
    }

    /// The number with the given pattern.
    pub fn from_bits(bits: u64) -> (number: Number)
        ensures
            number.bits == bits,
    {
        Number { bits }
    }

    /// The pattern of the number.
    pub fn to_bits(self) -> (bits: u64)
        ensures
            bits == self.bits,
    {
        self.bits
    }

    /// Positive zero.
    #[verifier::when_used_as_spec(spec_zero)]
    pub fn zero() -> (number: Number)
        ensures
            number == Number::spec_zero(),
    {
        Number { bits: 0 }
    }

    /// Whether the number is a NaN.
    #[verifier::when_used_as_spec(spec_is_nan)]
    pub fn is_nan(self) -> (nan: bool)
        ensures
            nan == self.spec_is_nan(),
    {
        if self.bits >= SIGN_BIT {
            self.bits - SIGN_BIT > INFINITY_BITS
        } else {
            self.bits > INFINITY_BITS
        }
    }

    /// The position of the number in the total order.
    #[verifier::when_used_as_spec(spec_rank)]
    pub fn rank(self) -> (rank: i64)
        ensures
            rank == self.spec_rank(),
    {
        if self.is_nan() {
            NAN_RANK
        } else if self.bits >= SIGN_BIT {
            let magnitude: u64 = self.bits - SIGN_BIT;
            -(magnitude as i64)
        } else {
            self.bits as i64
        }
    }

    /// Whether the number is strictly greater than zero.
    #[verifier::when_used_as_spec(spec_is_positive)]
    pub fn is_positive(self) -> (positive: bool)
        ensures
            positive == self.spec_is_positive(),
    {
        0 < self.bits && self.bits <= INFINITY_BITS
    }

    /// Two numbers stand at the same price level exactly when they are the
    /// same pattern, or both are zeros, or both are NaNs.
    pub proof fn lemma_same_rank(self, other: Number)
        ensures
            self.rank() == other.rank() <==> {
                ||| self.bits == other.bits
                ||| self.magnitude() == 0 && other.magnitude() == 0
                ||| self.is_nan() && other.is_nan()
            },
    {
    }
}

} // verus!
