//! Double-precision numbers, held by their bits: their order and their
//! integer part. What else is computed with them stays with the caller.
use vstd::prelude::*;
use vstd::arithmetic::power2::{lemma2_to64, pow2};
use vstd::bits::{lemma_u64_shl_is_mul, lemma_u64_shr_is_div};
use crate::json::{double_bits_in, stored_json, Json, Jv};

verus! {

/// A double-precision number: its IEEE 754 bits.
#[derive(Clone, Copy, Debug, PartialEq, Eq)]
pub struct Double {
    pub bits: u64,
}

/// The bit of the sign.
pub const SIGN: u64 = 0x8000_0000_0000_0000;

/// The bits of infinity; anything between them and the sign is no number.
pub const INFINITY: u64 = 0x7FF0_0000_0000_0000;

/// The bits of the number one.
pub const ONE: u64 = 0x3FF0_0000_0000_0000;

/// The bits without the sign.
pub open spec fn magnitude(bits: u64) -> int {
    if bits >= SIGN {
        bits - SIGN
    } else {
        bits as int
    }
}

pub open spec fn is_nan(bits: u64) -> bool {
    magnitude(bits) > INFINITY
}

/// An integer by which the bits of numbers are ordered as the numbers are.
pub open spec fn rank(bits: u64) -> int {
    if bits >= SIGN {
        -magnitude(bits)
    } else {
        magnitude(bits)
    }
}

impl Double {
    /// Less than, as the numbers are ordered.
    pub open spec fn below(self, other: Double) -> bool {
        !is_nan(self.bits) && !is_nan(other.bits) && rank(self.bits) < rank(other.bits)
    }

    /// At most, as the numbers are ordered.
    pub open spec fn at_most(self, other: Double) -> bool {
        !is_nan(self.bits) && !is_nan(other.bits) && rank(self.bits) <= rank(other.bits)
    }

    /// Equal as numbers: the two zeros are.
    pub open spec fn equals(self, other: Double) -> bool {
        !is_nan(self.bits) && !is_nan(other.bits) && rank(self.bits) == rank(other.bits)
    }

    pub open spec fn is_positive(self) -> bool {
        (Double { bits: 0 }).below(self)
    }

    fn nan(self) -> (r: bool)
        ensures
            r == is_nan(self.bits),
    {
        if self.bits >= SIGN {
            self.bits - SIGN > INFINITY
        } else {
            self.bits > INFINITY
        }
    }

    fn rank_of(self) -> (r: i128)
        ensures
            r == rank(self.bits),
    {
        if self.bits >= SIGN {
            -((self.bits - SIGN) as i128)
        } else {
            self.bits as i128
        }
    }

    pub fn lt(self, other: Double) -> (r: bool)
        ensures
            r == self.below(other),
    {
        !self.nan() && !other.nan() && self.rank_of() < other.rank_of()
    }

    pub fn le(self, other: Double) -> (r: bool)
        ensures
            r == self.at_most(other),
    {
        !self.nan() && !other.nan() && self.rank_of() <= other.rank_of()
    }

    pub fn same_number(self, other: Double) -> (r: bool)
        ensures
            r == self.equals(other),
    {
        !self.nan() && !other.nan() && self.rank_of() == other.rank_of()
    }

    pub fn positive(self) -> (r: bool)
        ensures
            r == self.is_positive(),
    {
        (Double { bits: 0 }).lt(self)
    }
}

// ---------------------------------------------------------------- factors

/// The bits of the largest number that is at most 0.00001 above one.
pub const TIME_HIGH: u64 = 0x3FF0_000A_7C5A_C471;

/// The bits of the smallest number that is at most 0.00001 below one.
pub const TIME_LOW: u64 = 0x3FEF_FFEB_074A_771D;

/// The bits of the largest number that is at most 0.000000001 above one.
pub const SCALE_HIGH: u64 = 0x3FF0_0000_0044_B82F;

/// The bits of the smallest number that is at most 0.000000001 below one.
pub const SCALE_LOW: u64 = 0x3FEF_FFFF_FF76_8FA1;

/// Whether a factor is so near to one that it is taken as one.
pub open spec fn is_neutral(x: Double, low: u64, high: u64) -> bool {
    (Double { bits: low }).at_most(x) && x.at_most(Double { bits: high })
}

pub(crate) fn neutral(x: Double, low: u64, high: u64) -> (r: bool)
    ensures
        r == is_neutral(x, low, high),
{
    (Double { bits: low }).le(x) && x.le(Double { bits: high })
}

// ---------------------------------------------------------------- integer parts

/// The integer part of the magnitude of a finite number: the significand,
/// scaled by the exponent.
pub open spec fn whole_magnitude(bits: u64) -> int {
    let m = magnitude(bits);
    let exponent = m / 0x10_0000_0000_0000;
    let fraction = m % 0x10_0000_0000_0000;
    if exponent == 0 {
        0
    } else if exponent <= 1075 {
        (fraction + 0x10_0000_0000_0000) / (pow2((1075 - exponent) as nat) as int)
    } else {
        (fraction + 0x10_0000_0000_0000) * (pow2((exponent - 1075) as nat) as int)
    }
}

/// The number without its fraction, kept inside the range of `i64`.
pub open spec fn truncated(bits: u64) -> int {
    if is_nan(bits) {
        0
    } else if bits >= SIGN {
        if -whole_magnitude(bits) < i64::MIN {
            i64::MIN as int
        } else {
            -whole_magnitude(bits)
        }
    } else if whole_magnitude(bits) > i64::MAX {
        i64::MAX as int
    } else {
        whole_magnitude(bits)
    }
}

/// A number of 53 bits, moved by 11 places or more, is beyond the range of `i64`.
proof fn lemma_beyond(f: int, k: nat)
    requires
        0x10_0000_0000_0000 <= f,
        11 <= k,
    ensures
        f * (pow2(k) as int) >= 0x8000_0000_0000_0000,
    decreases k,
{
    lemma2_to64();
    if k > 11 {
        lemma_beyond(f, (k - 1) as nat);
        vstd::arithmetic::power2::lemma_pow2_unfold(k);
        assert(f * (2 * pow2((k - 1) as nat)) == 2 * (f * pow2((k - 1) as nat)))
            by (nonlinear_arith);
    } else {
        assert(f * 2048 >= 0x8000_0000_0000_0000) by (nonlinear_arith)
            requires
                f >= 0x10_0000_0000_0000,
        ;
    }
}

/// A number of 53 bits, moved by 53 places or more, is nothing.
proof fn lemma_vanished(f: int, k: nat)
    requires
        0 <= f < 0x20_0000_0000_0000,
        53 <= k,
    ensures
        f / (pow2(k) as int) == 0,
{
    vstd::arithmetic::power2::lemma2_to64_rest();
    if k > 53 {
        vstd::arithmetic::power2::lemma_pow2_strictly_increases(53, k);
    }
    vstd::arithmetic::div_mod::lemma_basic_div(f, pow2(k) as int);
}

impl Double {
    /// The number without its fraction, kept inside the range of `i64`.
    pub fn trunc_i64(self) -> (r: i64)
        ensures
            r == truncated(self.bits),
    {
        if self.nan() {
            return 0;
        }
        let negative = self.bits >= SIGN;
        let m: u64 = if negative {
            self.bits - SIGN
        } else {
            self.bits
        };
        let exponent: u64 = m / 0x10_0000_0000_0000;
        let significand: u64 = m % 0x10_0000_0000_0000 + 0x10_0000_0000_0000;
        // `None`: the magnitude is 2^63 or more.
        let whole: Option<u64> = if exponent == 0 {
            Some(0)
        } else if exponent <= 1075 {
            let k: u64 = 1075 - exponent;
            if k >= 53 {
                proof {
                    lemma_vanished(significand as int, k as nat);
                }
                Some(0)
            } else {
                proof {
                    lemma_u64_shr_is_div(significand, k);
                    vstd::arithmetic::power2::lemma_pow2_pos(k as nat);
                    vstd::arithmetic::div_mod::lemma_div_is_ordered_by_denominator(
                        significand as int,
                        1,
                        pow2(k as nat) as int,
                    );
                }
                Some(significand >> k)
            }
        } else {
            let k: u64 = exponent - 1075;
            if k >= 11 {
                proof {
                    lemma_beyond(significand as int, k as nat);
                }
                None
            } else {
                proof {
                    lemma2_to64();
                    vstd::arithmetic::power2::lemma_pow2_pos(k as nat);
                    if k < 10 {
                        vstd::arithmetic::power2::lemma_pow2_strictly_increases(k as nat, 10);
                    }
                    assert(significand * pow2(k as nat) < 0x8000_0000_0000_0000)
                        by (nonlinear_arith)
                        requires
                            0 <= significand < 0x20_0000_0000_0000,
                            0 < pow2(k as nat) <= 1024,
                    ;
                    lemma_u64_shl_is_mul(significand, k);
                }
                Some(significand << k)
            }
        };
        match whole {
            None => if negative {
                i64::MIN
            } else {
                i64::MAX
            },
            Some(w) => if negative {
                -(w as i64)
            } else {
                w as i64
            },
        }
    }
}

/// The double-precision number of a JSON number.
pub open spec fn double_of(v: Jv) -> Option<Double> {
    if v.is_number() {
        match double_bits_in(stored_json(v)) {
            Some(bits) => Some(Double { bits }),
            None => None,
        }
    } else {
        None
    }
}

/// The double-precision number under a key.
pub open spec fn double_at(v: Jv, key: Seq<char>) -> Option<Double> {
    match v.member(key) {
        Some(x) => double_of(x),
        None => None,
    }
}

impl Json {
    /// The double-precision number of a JSON number.
    pub fn as_double(&self) -> (r: Option<Double>)
        ensures
            r == double_of(self@),
    {
        if self.is_number() {
            match self.double_bits() {
                Some(bits) => Some(Double { bits }),
                None => None,
            }
        } else {
            None
        }
    }

    /// The double-precision number under a key.
    pub fn get_double(&self, key: &str) -> (r: Option<Double>)
        ensures
            r == double_at(self@, key@),
    {
        match self.get(key) {
            Some(v) => v.as_double(),
            None => None,
        }
    }
}

/// The integer that a JSON number stands for: itself, or its whole part, kept
/// inside the range of `i64`.
pub open spec fn whole_number(v: Jv) -> Option<int> {
    match v {
        Jv::Int(i) => if i > i64::MAX {
            Some(i64::MAX as int)
        } else if i < i64::MIN {
            Some(i64::MIN as int)
        } else {
            Some(i)
        },
        Jv::Float(_) => match double_of(v) {
            Some(x) => Some(truncated(x.bits)),
            None => None,
        },
        _ => None,
    }
}

/// Reads the integer that a JSON number stands for.
pub fn whole_i64(v: &Json) -> (r: Option<i64>)
    ensures
        match r {
            Some(i) => whole_number(v@) == Some(i as int),
            None => whole_number(v@) is None,
        },
{
    match v {
        Json::Int(i) => if *i > i64::MAX as i128 {
            Some(i64::MAX)
        } else if *i < i64::MIN as i128 {
            Some(i64::MIN)
        } else {
            Some(*i as i64)
        },
        Json::Float(_) => match v.as_double() {
            Some(x) => Some(x.trunc_i64()),
            None => None,
        },
        _ => None,
    }
}

} // verus!
