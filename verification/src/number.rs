//! Floating-point quantities, held by their bit patterns.
use vstd::arithmetic::div_mod::{lemma_div_denominator, lemma_fundamental_div_mod};
use vstd::arithmetic::power2::{
    lemma_pow2_pos, lemma_pow2_strictly_increases, lemma_pow2_unfold, pow2,
};
use vstd::prelude::*;

verus! {

/// A double-precision number, held as the 64 bits of its IEEE 754 encoding.
#[derive(Debug, Clone, Copy, PartialEq, Eq, Structural)]
pub struct Double {
    pub bits: u64,
}

/// The bits of positive infinity. The encodings strictly between zero and this are the
/// positive finite numbers; those above it, up to the sign bit, are not numbers.
pub const INFINITY_BITS: u64 = 0x7ff0_0000_0000_0000;

/// The sign bit.
pub const SIGN_BIT: u64 = 0x8000_0000_0000_0000;

impl Double {
    /// Whether the number is finite and greater than zero.
    pub open spec fn positive_finite(self) -> bool {
        0 < self.bits < INFINITY_BITS
    }

    /// Whether the encoding is that of no number at all.
    pub open spec fn not_a_number(self) -> bool {
        INFINITY_BITS < self.bits < SIGN_BIT || SIGN_BIT + INFINITY_BITS < self.bits
    }

    /// Whether the encoding is that of zero, of either sign.
    pub open spec fn zero(self) -> bool {
        self.bits == 0 || self.bits == SIGN_BIT
    }

    /// Equality of numbers: no encoding of "not a number" equals anything, and the two
    /// zeros are equal.
    pub open spec fn equals(self, other: Double) -> bool {
        &&& !self.not_a_number()
        &&& !other.not_a_number()
        &&& self.bits == other.bits || (self.zero() && other.zero())
    }

    pub fn is_positive_finite(self) -> (r: bool)
        ensures
            r == self.positive_finite(),
    {
        0 < self.bits && self.bits < INFINITY_BITS
    }

    pub fn same_value(self, other: Double) -> (r: bool)
        ensures
            r == self.equals(other),
    {
        let nan_a: bool = (INFINITY_BITS < self.bits && self.bits < SIGN_BIT) || SIGN_BIT
            + INFINITY_BITS < self.bits;
        let nan_b: bool = (INFINITY_BITS < other.bits && other.bits < SIGN_BIT) || SIGN_BIT
            + INFINITY_BITS < other.bits;
        !nan_a && !nan_b && (self.bits == other.bits || ((self.bits == 0 || self.bits == SIGN_BIT)
            && (other.bits == 0 || other.bits == SIGN_BIT)))
    }
}

// ---------------------------------------------------------------------------
// A million times a number, rounded to an integer
// ---------------------------------------------------------------------------

/// 2 to the 52nd power: the weight of a normal number's implicit leading bit.
pub const LEADING_BIT: u64 = 0x10_0000_0000_0000;

/// 2 to the 53rd power: significands lie below it.
pub const SIGNIFICAND_END: u64 = 0x20_0000_0000_0000;

impl Double {
    /// The integer significand of a positive finite number.
    pub open spec fn significand(self) -> nat {
        if self.bits < LEADING_BIT {
            self.bits as nat
        } else {
            (self.bits % LEADING_BIT + LEADING_BIT) as nat
        }
    }

    /// The power of two by which the significand is scaled.
    pub open spec fn exponent(self) -> int {
        if self.bits < LEADING_BIT {
            -1074
        } else {
            self.bits / LEADING_BIT - 1075
        }
    }
}

/// How many low bits of `p` do not fit a significand.
pub open spec fn excess_bits(p: nat) -> nat
    decreases p,
{
    if p < SIGNIFICAND_END {
        0
    } else {
        1 + excess_bits(p / 2)
    }
}

/// `p` divided by `pow2(k)`, rounded to the nearest integer, ties to the even one.
pub open spec fn nearest_even(p: nat, k: nat) -> nat {
    let q = p / pow2(k);
    let r = p % pow2(k);
    if 2 * r > pow2(k) || (2 * r == pow2(k) && q % 2 == 1) {
        q + 1
    } else {
        q
    }
}

/// `q` times the `t`-th power of two, rounded to the nearest integer, ties upwards.
pub open spec fn nearest_up(q: nat, t: int) -> nat {
    if t >= 0 {
        q * pow2(t as nat)
    } else {
        (2 * q + pow2((-t) as nat)) / pow2((1 - t) as nat)
    }
}

/// The positive finite number `d` times a million: the product rounded to double
/// precision, then to the nearest integer, and at most the largest 64-bit integer. Any
/// other number counts as zero.
pub open spec fn millionfold(d: Double) -> nat {
    if !d.positive_finite() {
        0
    } else {
        let p = d.significand() * 1_000_000;
        let k = excess_bits(p);
        let n = nearest_up(nearest_even(p, k), d.exponent() + k);
        if n > u64::MAX {
            u64::MAX as nat
        } else {
            n
        }
    }
}

/// The `n`-th power of two.
fn power_of_two(n: u32) -> (r: u128)
    requires
        n <= 63,
    ensures
        r == pow2(n as nat),
        r >= 1,
{
    let mut r: u128 = 1;
    let mut i: u32 = 0;
    proof {
        vstd::arithmetic::power2::lemma2_to64();
        vstd::arithmetic::power2::lemma2_to64_rest();
    }
    while i < n
        invariant
            i <= n <= 63,
            r == pow2(i as nat),
            pow2(i as nat) <= 0x8000_0000_0000_0000,
            pow2(63) == 0x8000_0000_0000_0000,
        decreases n - i,
    {
        proof {
            lemma_pow2_unfold((i + 1) as nat);
            if i + 1 < 63 {
                lemma_pow2_strictly_increases((i + 1) as nat, 63);
            }
        }
        r = r * 2;
        i = i + 1;
    }
    proof {
        lemma_pow2_pos(n as nat);
    }
    r
}

pub proof fn lemma_excess(p: nat)
    ensures
        excess_bits(p) >= 1 ==> LEADING_BIT <= p / pow2(excess_bits(p)) < SIGNIFICAND_END,
        excess_bits(p) == 0 ==> p < SIGNIFICAND_END,
    decreases p,
{
    vstd::arithmetic::power2::lemma2_to64();
    if p >= SIGNIFICAND_END {
        lemma_excess(p / 2);
        let k = excess_bits(p / 2);
        lemma_pow2_pos(k);
        lemma_pow2_unfold((k + 1) as nat);
        lemma_div_denominator(p as int, 2, pow2(k) as int);
        assert((p / 2) / pow2(k) == p / pow2(k + 1));
        if k == 0 {
            assert(p / 2 >= LEADING_BIT);
            assert(pow2(1) == 2);
        }
    }
}

proof fn lemma_excess_bound(p: nat, j: nat)
    requires
        p < SIGNIFICAND_END * pow2(j),
    ensures
        excess_bits(p) <= j,
    decreases j,
{
    if j == 0 {
        vstd::arithmetic::power2::lemma2_to64();
    } else if p >= SIGNIFICAND_END {
        lemma_pow2_unfold(j);
        let half = pow2((j - 1) as nat);
        assert(SIGNIFICAND_END * pow2(j) == 2 * (SIGNIFICAND_END * half)) by (nonlinear_arith)
            requires
                pow2(j) == 2 * half,
        ;
        lemma_excess_bound(p / 2, (j - 1) as nat);
    }
}

/// How many low bits of `p` do not fit a significand.
fn count_excess(p: u128) -> (k: u32)
    requires
        excess_bits(p as nat) <= 20,
    ensures
        k == excess_bits(p as nat),
{
    let mut k: u32 = 0;
    let mut rest: u128 = p;
    while rest >= SIGNIFICAND_END as u128
        invariant
            k + excess_bits(rest as nat) == excess_bits(p as nat),
            excess_bits(p as nat) <= 20,
        decreases rest,
    {
        rest = rest / 2;
        k = k + 1;
    }
    k
}

/// A million times `d`, rounded as [`millionfold`] says.
pub fn times_million(d: Double) -> (r: u64)
    ensures
        r == millionfold(d),
{
    if !d.is_positive_finite() {
        return 0;
    }
    let m: u64 = if d.bits < LEADING_BIT {
        d.bits
    } else {
        d.bits % LEADING_BIT + LEADING_BIT
    };
    let e: i32 = if d.bits < LEADING_BIT {
        -1074
    } else {
        (d.bits / LEADING_BIT) as i32 - 1075
    };
    let p: u128 = (m as u128) * 1_000_000;
    proof {
        vstd::arithmetic::power2::lemma2_to64();
        vstd::arithmetic::power2::lemma2_to64_rest();
        assert(pow2(20) == 0x100000);
        lemma_excess_bound(p as nat, 20);
        lemma_excess(p as nat);
    }
    let k: u32 = count_excess(p);
    let unit: u128 = power_of_two(k);
    let q: u128 = p / unit;
    let r: u128 = p % unit;
    proof {
        if k == 0 {
            assert(unit == 1);
        }
        assert(q < SIGNIFICAND_END);
        lemma_fundamental_div_mod(p as int, unit as int);
        if k < 20 {
            lemma_pow2_strictly_increases(k as nat, 20);
        }
        assert(unit <= 0x100000);
    }
    let n: u128 = if 2 * r > unit || (2 * r == unit && q % 2 == 1) {
        q + 1
    } else {
        q
    };
    assert(n == nearest_even(p as nat, k as nat));
    let t: i32 = e + k as i32;
    if t >= 0 {
        proof {
            assert(d.bits >= LEADING_BIT);
            assert(k >= 1);
            assert(n >= LEADING_BIT);
        }
        if t > 11 {
            proof {
                if t > 12 {
                    lemma_pow2_strictly_increases(12, t as nat);
                }
                assert(n * pow2(t as nat) >= LEADING_BIT * 4096) by (nonlinear_arith)
                    requires
                        n >= LEADING_BIT,
                        pow2(t as nat) >= 4096,
                ;
            }
            return u64::MAX;
        }
        let scale: u128 = power_of_two(t as u32);
        proof {
            if t < 11 {
                lemma_pow2_strictly_increases(t as nat, 11);
            }
            assert(scale <= 2048);
            assert(n * scale <= SIGNIFICAND_END * 2048) by (nonlinear_arith)
                requires
                    n <= SIGNIFICAND_END,
                    scale <= 2048,
            ;
        }
        let scaled: u128 = n * scale;
        if scaled > u64::MAX as u128 {
            u64::MAX
        } else {
            scaled as u64
        }
    } else {
        let s: i32 = -t;
        if s >= 60 {
            proof {
                let half = pow2(s as nat);
                if s > 60 {
                    lemma_pow2_strictly_increases(60, s as nat);
                }
                lemma_pow2_unfold((s + 1) as nat);
                assert(2 * n < half);
                let top = (2 * n + half) as int;
                let whole = pow2((s + 1) as nat) as int;
                assert(top < whole);
                vstd::arithmetic::div_mod::lemma_basic_div(top, whole);
            }
            return 0;
        }
        let half: u128 = power_of_two(s as u32);
        let whole: u128 = power_of_two(s as u32 + 1);
        proof {
            lemma_pow2_strictly_increases(s as nat, 63);
            let top = (2 * n + half) as int;
            vstd::arithmetic::div_mod::lemma_div_is_ordered_by_denominator(top, 1, whole as int);
            lemma_pow2_unfold((s + 1) as nat);
            assert(top / (whole as int) <= 2 * n + 1) by (nonlinear_arith)
                requires
                    top == 2 * n + half,
                    whole == 2 * half,
                    half >= 1,
                    n >= 0,
            ;
        }
        ((2 * n + half) / whole) as u64
    }
}

} // verus!
