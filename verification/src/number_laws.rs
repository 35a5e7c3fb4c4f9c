//! How near a million times a number comes to the number.
use crate::number::{
    excess_bits, millionfold, nearest_even, nearest_up, Double, INFINITY_BITS, SIGN_BIT,
};
use vstd::arithmetic::div_mod::lemma_fundamental_div_mod;
use vstd::arithmetic::power2::{lemma_pow2_adds, lemma_pow2_pos, lemma_pow2_unfold, pow2};
use vstd::prelude::*;

verus! {

/// How far apart two numbers are.
pub open spec fn apart(a: nat, b: nat) -> int {
    if a < b {
        b - a
    } else {
        a - b
    }
}

proof fn lemma_even(p: nat, k: nat)
    ensures
        2 * apart(nearest_even(p, k) * pow2(k), p) <= pow2(k),
{
    let unit = pow2(k);
    lemma_pow2_pos(k);
    let q = p / unit;
    let r = p % unit;
    lemma_fundamental_div_mod(p as int, unit as int);
    assert(unit * q == q * unit) by (nonlinear_arith);
    assert((q + 1) * unit == q * unit + unit) by (nonlinear_arith);
    assert(0 <= r < unit) by (nonlinear_arith)
        requires
            unit > 0,
            r == p % unit,
    ;
}

proof fn lemma_up(q: nat, t: int)
    requires
        t < 0,
    ensures
        2 * apart(nearest_up(q, t) * pow2((-t) as nat), q) <= pow2((-t) as nat),
{
    let d = pow2((-t) as nat);
    lemma_pow2_pos((-t) as nat);
    lemma_pow2_unfold((1 - t) as nat);
    let whole = pow2((1 - t) as nat);
    assert(whole == 2 * d);
    let n = nearest_up(q, t);
    let sum = 2 * q + d;
    lemma_fundamental_div_mod(sum as int, whole as int);
    assert(0 <= sum % whole < whole) by (nonlinear_arith)
        requires
            whole > 0,
    ;
    assert(whole * n == 2 * (n * d)) by (nonlinear_arith)
        requires
            whole == 2 * d,
    ;
}

/// A million times a positive finite number is the nearest integer to it, but for the rounding of
/// the product to a double: with the number as a significand times a power of two, the result, at
/// that scale, is apart from a million significands by no more than half a unit of each rounding.
/// One too large for the result counts as the largest integer.
pub proof fn law_a_million_times_is_the_nearest(d: Double)
    requires
        0 < d.bits < 0x7ff0_0000_0000_0000,
    ensures
        ({
            let p = d.significand() * 1_000_000;
            let lost = pow2(excess_bits(p));
            let r = millionfold(d);
            &&& r <= u64::MAX
            &&& d.exponent() < 0 ==> {
                let scale = pow2((-d.exponent()) as nat);
                &&& r < u64::MAX ==> 2 * apart(r * scale, p) <= scale + lost
                &&& r == u64::MAX ==> 2 * p + scale + lost >= 2 * (r * scale)
            }
            &&& d.exponent() >= 0 ==> {
                let scale = pow2(d.exponent() as nat);
                &&& r < u64::MAX ==> 2 * apart(r, p * scale) <= lost * scale
                &&& r == u64::MAX ==> 2 * (p * scale) + lost * scale >= 2 * r
            }
        }),
{
    let p = d.significand() * 1_000_000;
    let k = excess_bits(p);
    let lost = pow2(k);
    let q = nearest_even(p, k);
    let e = d.exponent();
    let t = e + k;
    let n = nearest_up(q, t);
    lemma_even(p, k);
    lemma_pow2_pos(k);
    if e < 0 {
        let s = (-e) as nat;
        let scale = pow2(s);
        lemma_pow2_pos(s);
        if t < 0 {
            lemma_up(q, t);
            let u = pow2((-t) as nat);
            lemma_pow2_adds((-t) as nat, k);
            assert(u * lost == scale);
            assert((n * u) * lost == n * scale) by (nonlinear_arith)
                requires
                    u * lost == scale,
            ;
            let off = apart(n * u, q);
            assert(apart(n * scale, q * lost) == off * lost) by (nonlinear_arith)
                requires
                    (n * u) * lost == n * scale,
                    off == apart(n * u, q),
                    lost > 0,
            {
                assert((n * u) * lost - q * lost == (n * u - q) * lost);
                if n * u < q {
                    assert((n * u) * lost <= q * lost);
                    assert((q - n * u) * lost == q * lost - (n * u) * lost);
                } else {
                    assert((n * u) * lost >= q * lost);
                }
            }
            assert(2 * (off * lost) <= u * lost) by (nonlinear_arith)
                requires
                    2 * off <= u,
                    lost > 0,
            ;
        } else {
            let more = pow2(t as nat);
            lemma_pow2_adds(t as nat, s);
            assert(more * scale == lost);
            assert(n * scale == q * lost) by (nonlinear_arith)
                requires
                    n == q * more,
                    more * scale == lost,
            ;
        }
        assert(2 * apart(n * scale, p) <= scale + lost);
        if n > u64::MAX {
            assert(n * scale >= u64::MAX * scale) by (nonlinear_arith)
                requires
                    n > u64::MAX,
                    scale > 0,
            ;
        }
    } else {
        let scale = pow2(e as nat);
        lemma_pow2_pos(e as nat);
        lemma_pow2_adds(k, e as nat);
        assert(pow2(t as nat) == lost * scale);
        assert(n == (q * lost) * scale) by (nonlinear_arith)
            requires
                n == q * pow2(t as nat),
                pow2(t as nat) == lost * scale,
        ;
        let off = apart(q * lost, p);
        assert(apart(n, p * scale) == off * scale) by (nonlinear_arith)
            requires
                n == (q * lost) * scale,
                off == apart(q * lost, p),
                scale > 0,
        {
            assert((q * lost) * scale - p * scale == (q * lost - p) * scale);
            if q * lost < p {
                assert((q * lost) * scale <= p * scale);
                assert((p - q * lost) * scale == p * scale - (q * lost) * scale);
            } else {
                assert((q * lost) * scale >= p * scale);
            }
        }
        assert(2 * (off * scale) <= lost * scale) by (nonlinear_arith)
            requires
                2 * off <= lost,
                scale > 0,
        ;
    }
}

/// What is no positive finite number counts as nothing: zero, what is negative, infinity, and what
/// is no number.
pub proof fn law_only_positive_numbers_count(d: Double)
    requires
        d.bits == 0 || d.bits >= INFINITY_BITS,
    ensures
        millionfold(d) == 0,
{
}

/// The bits that a product loses are those that a significand has no room for, and no more: what
/// is left fills the significand.
pub proof fn law_no_more_bits_are_lost_than_must_be(p: nat)
    ensures
        p < 0x20_0000_0000_0000 ==> excess_bits(p) == 0,
        p >= 0x20_0000_0000_0000 ==> 0x10_0000_0000_0000 <= p / pow2(excess_bits(p))
            < 0x20_0000_0000_0000,
{
    crate::number::lemma_excess(p);
}

/// Numbers are equal as numbers are: each to itself unless it is no number, the one to the other as
/// the other to the one, and the two zeros to each other.
pub proof fn law_equality_is_that_of_numbers(a: Double, b: Double)
    ensures
        a.equals(a) <==> !a.not_a_number(),
        a.equals(b) <==> b.equals(a),
        a.equals(b) && a.bits != b.bits ==> (a.bits == 0 || a.bits == SIGN_BIT) && (b.bits == 0
            || b.bits == SIGN_BIT),
        a.bits == 0 && b.bits == SIGN_BIT ==> a.equals(b),
        a.not_a_number() <==> INFINITY_BITS < a.bits < SIGN_BIT || a.bits > SIGN_BIT + INFINITY_BITS,
{
}

} // verus!
