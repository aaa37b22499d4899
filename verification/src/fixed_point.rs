//! Fixed-point arithmetic on 64-bit quantities with wide intermediates.
//!
//! Every operation here is total: a quotient that does not fit in 64 bits is
//! capped at `u64::MAX`, and a zero divisor yields zero.

use vstd::arithmetic::div_mod::{
    lemma_div_is_ordered, lemma_div_pos_is_pos, lemma_multiply_divide_le,
};
use vstd::arithmetic::mul::{lemma_mul_inequality, lemma_mul_is_commutative, lemma_mul_nonnegative};
use vstd::prelude::*;

verus! {

/// One US dollar in canonical units.
pub const ONE_USD: u64 = 1_000_000_000_000;

/// Denominator of a basis-point share.
pub const BPS_DIVIDER: u64 = 10000;

/// Scale in which weights are expressed.
pub const WEIGHT_MULTIPLIER: u64 = 10000;

/// `10^e`.
pub open spec fn pow10(e: nat) -> nat
    decreases e,
{
    if e == 0 {
        1
    } else {
        10 * pow10((e - 1) as nat)
    }
}

/// A non-negative quantity capped at the 64-bit range.
pub open spec fn saturate(x: int) -> int {
    if x > u64::MAX {
        u64::MAX as int
    } else {
        x
    }
}

/// `floor(a * b / c)` capped at the 64-bit range; zero when `c` is zero.
pub open spec fn mul_div_spec(a: int, b: int, c: int) -> int {
    if c == 0 {
        0
    } else {
        saturate((a * b) / c)
    }
}

/// Worth of `amount` native units of a token with `decimals` decimals at `price`.
pub open spec fn amount_to_usd_spec(amount: int, decimals: nat, price: int) -> int {
    mul_div_spec(amount, price, pow10(decimals) as int)
}

/// Native units of a token with `decimals` decimals that `worth` buys at `price`.
pub open spec fn usd_to_amount_spec(worth: int, decimals: nat, price: int) -> int {
    mul_div_spec(worth, pow10(decimals) as int, price)
}

/// Powers of ten are positive and grow with the exponent.
pub proof fn lemma_pow10_increases(e1: nat, e2: nat)
    requires
        e1 <= e2,
    ensures
        1 <= pow10(e1) <= pow10(e2),
    decreases e2,
{
    if e2 == 0 {
    } else if e1 == e2 {
        lemma_pow10_increases((e1 - 1) as nat, (e2 - 1) as nat);
    } else {
        lemma_pow10_increases(e1, (e2 - 1) as nat);
    }
}

/// The result of a saturating multiply-divide always fits in 64 bits.
pub proof fn lemma_mul_div_range(a: int, b: int, c: int)
    requires
        0 <= a,
        0 <= b,
        0 <= c,
    ensures
        0 <= mul_div_spec(a, b, c) <= u64::MAX,
{
    if c != 0 {
        lemma_mul_nonnegative(a, b);
        lemma_div_pos_is_pos(a * b, c);
    }
}

/// A zero divisor yields zero, whatever the factors.
pub proof fn lemma_mul_div_zero_divisor(a: int, b: int)
    ensures
        mul_div_spec(a, b, 0) == 0,
{
}

/// A zero factor yields zero.
pub proof fn lemma_mul_div_zero_factor(b: int, c: int)
    requires
        0 <= c,
    ensures
        mul_div_spec(0, b, c) == 0,
        mul_div_spec(b, 0, c) == 0,
{
    assert(0 * b == 0) by (nonlinear_arith);
    assert(b * 0 == 0) by (nonlinear_arith);
}

/// Multiply-divide does not decrease when its first factor grows.
pub proof fn lemma_mul_div_monotone(a1: int, a2: int, b: int, c: int)
    requires
        0 <= a1 <= a2,
        0 <= b,
        0 <= c,
    ensures
        mul_div_spec(a1, b, c) <= mul_div_spec(a2, b, c),
{
    if c != 0 {
        lemma_mul_inequality(a1, a2, b);
        lemma_div_is_ordered(a1 * b, a2 * b, c);
    }
}

/// A share `b / c` of at most one never exceeds the whole.
pub proof fn lemma_mul_div_share(a: int, b: int, c: int)
    requires
        0 <= a <= u64::MAX,
        0 <= b <= c,
    ensures
        0 <= mul_div_spec(a, b, c) <= a,
{
    if c != 0 {
        lemma_mul_nonnegative(a, b);
        lemma_div_pos_is_pos(a * b, c);
        lemma_mul_inequality(b, c, a);
        lemma_mul_is_commutative(a, b);
        lemma_mul_is_commutative(a, c);
        lemma_mul_is_commutative(c, a);
        lemma_multiply_divide_le(a * b, c, a);
    }
}

/// Converting a worth to an amount and back never yields more than the worth.
pub proof fn lemma_usd_round_trip(worth: int, decimals: nat, price: int)
    requires
        0 <= worth,
        0 <= price,
    ensures
        0 <= amount_to_usd_spec(usd_to_amount_spec(worth, decimals, price), decimals, price)
            <= worth,
{
    let d = pow10(decimals) as int;
    lemma_pow10_increases(0, decimals);
    let amount = usd_to_amount_spec(worth, decimals, price);
    lemma_mul_nonnegative(worth, d);
    lemma_mul_div_range(worth, d, price);
    lemma_mul_nonnegative(amount, price);
    lemma_div_pos_is_pos(amount * price, d);
    if price != 0 {
        let q = (worth * d) / price;
        vstd::arithmetic::div_mod::lemma_fundamental_div_mod(worth * d, price);
        vstd::arithmetic::div_mod::lemma_mod_bound(worth * d, price);
        assert(price * q <= worth * d);
        lemma_mul_inequality(amount, q, price);
        lemma_mul_is_commutative(q, price);
        assert(amount * price <= worth * d);
        lemma_div_is_ordered(amount * price, worth * d, d);
        vstd::arithmetic::div_mod::lemma_div_multiples_vanish(worth, d);
        lemma_mul_is_commutative(worth, d);
    } else {
        assert(amount * 0 == 0) by (nonlinear_arith);
    }
}

/// A quotient whose dividend is at least `2^64` times its divisor saturates.
proof fn lemma_quotient_saturates(x: int, c: int)
    requires
        0 < c,
        x >= 0x1_0000_0000_0000_0000 * c,
    ensures
        x / c >= 0x1_0000_0000_0000_0000,
{
    vstd::arithmetic::div_mod::lemma_div_multiples_vanish(0x1_0000_0000_0000_0000, c);
    lemma_mul_is_commutative(0x1_0000_0000_0000_0000, c);
    lemma_div_is_ordered(0x1_0000_0000_0000_0000 * c, x, c);
}

/// `floor(a * b / c)`, capped at `u64::MAX`, and `0` when `c` is `0`.
pub fn mul_div(a: u64, b: u64, c: u64) -> (r: u64)
    ensures
        r == mul_div_spec(a as int, b as int, c as int),
{
    if c == 0 {
        return 0;
    }
    assert(a * b <= 0xffff_ffff_ffff_ffff * 0xffff_ffff_ffff_ffff) by (nonlinear_arith)
        requires
            a <= 0xffff_ffff_ffff_ffff,
            b <= 0xffff_ffff_ffff_ffff,
    ;
    let wide: u128 = (a as u128) * (b as u128);
    let quotient: u128 = wide / (c as u128);
    if quotient > u64::MAX as u128 {
        u64::MAX
    } else {
        quotient as u64
    }
}

/// `10^e` where it fits in 128 bits.
pub fn pow10_checked(e: u32) -> (r: Option<u128>)
    ensures
        match r {
            Some(p) => p == pow10(e as nat),
            None => pow10(e as nat) > u128::MAX,
        },
{
    let mut p: u128 = 1;
    let mut i: u32 = 0;
    while i < e
        invariant
            i <= e,
            p == pow10(i as nat),
        decreases e - i,
    {
        match p.checked_mul(10) {
            Some(next) => {
                p = next;
            },
            None => {
                proof {
                    lemma_pow10_increases((i + 1) as nat, e as nat);
                }
                return None;
            },
        }
        i += 1;
    }
    Some(p)
}

/// `floor(a * b / 10^e)`, capped at `u64::MAX`.
pub fn mul_div_pow10(a: u64, b: u64, e: u32) -> (r: u64)
    ensures
        r == mul_div_spec(a as int, b as int, pow10(e as nat) as int),
{
    assert(a * b <= 0xffff_ffff_ffff_ffff * 0xffff_ffff_ffff_ffff) by (nonlinear_arith)
        requires
            a <= 0xffff_ffff_ffff_ffff,
            b <= 0xffff_ffff_ffff_ffff,
    ;
    assert(0 <= a * b) by (nonlinear_arith)
        requires
            0 <= a,
            0 <= b,
    ;
    proof {
        lemma_pow10_increases(0, e as nat);
    }
    let wide: u128 = (a as u128) * (b as u128);
    match pow10_checked(e) {
        None => {
            proof {
                vstd::arithmetic::div_mod::lemma_basic_div(a * b, pow10(e as nat) as int);
            }
            0
        },
        Some(p) => {
            let quotient: u128 = wide / p;
            if quotient > u64::MAX as u128 {
                u64::MAX
            } else {
                quotient as u64
            }
        },
    }
}

/// `floor(a * 10^e / c)`, capped at `u64::MAX`, and `0` when `c` is `0`.
pub fn mul_pow10_div(a: u128, e: u32, c: u64) -> (r: u64)
    ensures
        r == mul_div_spec(a as int, pow10(e as nat) as int, c as int),
{
    if c == 0 {
        return 0;
    }
    proof {
        lemma_pow10_increases(0, e as nat);
    }
    if a == 0 {
        assert(0 * (pow10(e as nat) as int) == 0) by (nonlinear_arith);
        return 0;
    }
    let product: Option<u128> = match pow10_checked(e) {
        None => None,
        Some(p) => a.checked_mul(p),
    };
    match product {
        None => {
            proof {
                let x = a as int * (pow10(e as nat) as int);
                assert(x > u128::MAX) by {
                    if pow10(e as nat) > u128::MAX {
                        lemma_mul_inequality(1, a as int, pow10(e as nat) as int);
                    }
                }
                assert(0x1_0000_0000_0000_0000 * (c as int) <= x);
                lemma_quotient_saturates(x, c as int);
            }
            u64::MAX
        },
        Some(x) => {
            let quotient: u128 = x / (c as u128);
            if quotient > u64::MAX as u128 {
                u64::MAX
            } else {
                quotient as u64
            }
        },
    }
}

} // verus!
