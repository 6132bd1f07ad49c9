//! Noise samples and the parameters of a noise field.
//!
//! A sample is the normalized output of a fractal noise function, carried as
//! the bit pattern of an IEEE-754 binary32 number.  Comparisons are defined on
//! the pattern and order samples exactly as the numbers they encode.

use vstd::prelude::*;

verus! {

/// Pattern of the sign bit; patterns at or above it encode negative numbers.
pub const SIGN_BIT: u32 = 0x8000_0000;

/// Pattern of positive infinity; a larger magnitude encodes no number.
pub const INFINITY_BITS: u32 = 0x7F80_0000;

/// Pattern of 0.05, the lower edge of the water band.
pub const WATER_LOW_BITS: u32 = 0x3D4C_CCCD;

/// Pattern of 0.2, the upper edge of the water band.
pub const WATER_HIGH_BITS: u32 = 0x3E4C_CCCD;

/// Pattern of 0.2, below which a tree is planted.
pub const TREE_LOW_BITS: u32 = 0x3E4C_CCCD;

/// Pattern of 0.6, above which a tree is planted.
pub const TREE_HIGH_BITS: u32 = 0x3F19_999A;

/// Cells along a row that make one unit of the noise field's first axis.
pub const SAMPLE_STRETCH_X: u32 = 160;

/// Cells along a column that make one unit of the noise field's second axis;
/// fewer than along a row, so that features stretch sideways.
pub const SAMPLE_STRETCH_Y: u32 = 100;

/// One value of a noise field.
#[derive(Clone, Copy, Debug, PartialEq, Eq, Structural)]
pub struct NoiseSample {
    pub bits: u32,
}

impl NoiseSample {
    /// The pattern without its sign bit.
    pub open spec fn magnitude(self) -> int {
        if self.bits >= SIGN_BIT {
            self.bits - SIGN_BIT
        } else {
            self.bits as int
        }
    }

    /// The pattern encodes no number.
    pub open spec fn is_nan(self) -> bool {
        self.magnitude() > INFINITY_BITS
    }

    /// Place of the encoded number on the number line: both zeros stand at 0,
    /// positive numbers above it and negative numbers below it, each by its
    /// magnitude.
    pub open spec fn rank(self) -> int {
        if self.bits >= SIGN_BIT {
            -self.magnitude()
        } else {
            self.magnitude()
        }
    }

    /// Numeric `<`: false whenever either side encodes no number.
    pub open spec fn less_than(self, other: NoiseSample) -> bool {
        !self.is_nan() && !other.is_nan() && self.rank() < other.rank()
    }

    /// The sample lies strictly inside the water band.
    pub open spec fn in_water_band(self) -> bool {
        (NoiseSample { bits: WATER_LOW_BITS }).less_than(self) && self.less_than(
            NoiseSample { bits: WATER_HIGH_BITS },
        )
    }

    /// The sample lies in one of the two tails in which trees grow.
    pub open spec fn in_tree_tails(self) -> bool {
        self.less_than(NoiseSample { bits: TREE_LOW_BITS }) || (NoiseSample {
            bits: TREE_HIGH_BITS,
        }).less_than(self)
    }

    /// The sample encodes a number between 0 and 1, both included.
    pub open spec fn is_normalized(self) -> bool {
        !self.is_nan() && 0 <= self.rank() <= 0x3F80_0000
    }

    pub fn from_bits(bits: u32) -> (sample: NoiseSample)
        ensures
            sample.bits == bits,
    {
        NoiseSample { bits }
    }

    fn signed_rank(&self) -> (r: i64)
        ensures
            r == self.rank(),
            (r > INFINITY_BITS || r < -(INFINITY_BITS as int)) == self.is_nan(),
    {
        if self.bits >= SIGN_BIT {
            -((self.bits - SIGN_BIT) as i64)
        } else {
            self.bits as i64
        }
    }

    /// Tells whether the pattern encodes no number.
    pub fn nan(&self) -> (r: bool)
        ensures
            r == self.is_nan(),
    {
        let rank: i64 = self.signed_rank();
        rank > INFINITY_BITS as i64 || rank < -(INFINITY_BITS as i64)
    }

    /// Numeric `<` on two samples.
    pub fn lt(&self, other: &NoiseSample) -> (r: bool)
        ensures
            r == self.less_than(*other),
    {
        !self.nan() && !other.nan() && self.signed_rank() < other.signed_rank()
    }

    /// Tells whether the sample marks a water cell: strictly between 0.05 and
    /// 0.2.
    pub fn is_water(&self) -> (r: bool)
        ensures
            r == self.in_water_band(),
            r == (WATER_LOW_BITS < self.bits < WATER_HIGH_BITS),
    {
        let low = NoiseSample { bits: WATER_LOW_BITS };
        let high = NoiseSample { bits: WATER_HIGH_BITS };
        low.lt(self) && self.lt(&high)
    }

    /// Tells whether the sample plants a tree: below 0.2 or above 0.6.
    pub fn plants_tree(&self) -> (r: bool)
        ensures
            r == self.in_tree_tails(),
    {
        let low = NoiseSample { bits: TREE_LOW_BITS };
        let high = NoiseSample { bits: TREE_HIGH_BITS };
        self.lt(&low) || high.lt(self)
    }

    /// Tells whether the sample encodes a number in `[0, 1]`.
    pub fn normalized(&self) -> (r: bool)
        ensures
            r == self.is_normalized(),
    {
        let rank: i64 = self.signed_rank();
        !self.nan() && 0 <= rank && rank <= 0x3F80_0000
    }
}

} // verus!
