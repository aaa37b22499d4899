//! Laws of the curve walker: more sold is never worth less, and more paid
//! never buys less where the fee of the bought token does not depend on
//! the side of its target.

use crate::accounts::{OraclePrice, TokenPriceData, TokenSettings};
use crate::curve::{
    bought_amount, bought_amount_from, bought_segment, buy_price_at, fee_spec, inventory_after,
    lemma_bought_amount_from_nonnegative, lemma_bought_segment_range, lemma_fee_bounded,
    lemma_sold_value_from_nonnegative, sell_price_at,
    sold_before_target, sold_segment_value, sold_value, sold_value_from,
};
use crate::fixed_point::{
    amount_to_usd_spec, lemma_mul_div_monotone, lemma_mul_div_range, lemma_mul_div_share,
    lemma_mul_div_zero_factor, lemma_pow10_increases, pow10, usd_to_amount_spec,
};
use vstd::arithmetic::div_mod::{lemma_fundamental_div_mod, lemma_mod_bound};
use vstd::prelude::*;

verus! {

/// A fee grows no faster than the value it is charged on.
pub proof fn lemma_fee_lipschitz(v1: int, v2: int, bps: u8)
    requires
        0 <= v1 <= v2 <= u64::MAX,
    ensures
        fee_spec(v1, bps as int) <= fee_spec(v2, bps as int),
        fee_spec(v2, bps as int) - fee_spec(v1, bps as int) <= v2 - v1,
{
    let b = bps as int;
    let q1 = (v1 * b) / 10000;
    let q2 = (v2 * b) / 10000;
    lemma_mul_div_share(v1, b, 10000);
    lemma_mul_div_share(v2, b, 10000);
    lemma_mul_div_monotone(v1, v2, b, 10000);
    assert(v1 * b <= 10000 * v1 && v2 * b <= 10000 * v2) by (nonlinear_arith)
        requires
            0 <= v1,
            0 <= v2,
            0 <= b <= 10000,
    ;
    vstd::arithmetic::div_mod::lemma_multiply_divide_le(v1 * b, 10000, v1);
    vstd::arithmetic::div_mod::lemma_multiply_divide_le(v2 * b, 10000, v2);
    assert(fee_spec(v1, b) == q1);
    assert(fee_spec(v2, b) == q2);
    lemma_fundamental_div_mod(v1 * b, 10000);
    lemma_fundamental_div_mod(v2 * b, 10000);
    lemma_mod_bound(v1 * b, 10000);
    lemma_mod_bound(v2 * b, 10000);
    let d = v2 - v1;
    assert(v2 * b - v1 * b == d * b) by (nonlinear_arith)
        requires
            d == v2 - v1,
    ;
    assert(d * b <= d * 10000) by (nonlinear_arith)
        requires
            0 <= d,
            0 <= b <= 10000,
    ;
    assert(10000 * q2 - 10000 * q1 < d * 10000 + 10000);
}

/// What is left of a value once its fee is paid grows with the value.
pub proof fn lemma_net_monotone(v1: int, v2: int, bps: u8)
    requires
        0 <= v1 <= v2 <= u64::MAX,
    ensures
        v1 - fee_spec(v1, bps as int) <= v2 - fee_spec(v2, bps as int),
{
    lemma_fee_lipschitz(v1, v2, bps);
}

/// A longer sold segment is worth no less than a shorter one that starts
/// at the same inventory and the same price.
pub proof fn lemma_sold_segment_monotone(
    a1: int,
    a2: int,
    current: int,
    target: int,
    s: TokenSettings,
    price: int,
)
    requires
        0 <= a1 <= a2,
        0 <= price,
    ensures
        sold_segment_value(a1, sold_before_target(current, a1, target), s, price)
            <= sold_segment_value(a2, sold_before_target(current, a2, target), s, price),
{
    let d = s.decimals as nat;
    let dd = pow10(d) as int;
    lemma_pow10_increases(0, d);
    let b1 = sold_before_target(current, a1, target);
    let b2 = sold_before_target(current, a2, target);
    assert(0 <= b1 <= b2);
    assert(0 <= a1 - b1 <= a2 - b2);
    lemma_mul_div_monotone(b1, b2, price, dd);
    lemma_mul_div_monotone(a1 - b1, a2 - b2, price, dd);
    lemma_mul_div_range(b1, price, dd);
    lemma_mul_div_range(b2, price, dd);
    lemma_mul_div_range(a1 - b1, price, dd);
    lemma_mul_div_range(a2 - b2, price, dd);
    lemma_net_monotone(
        amount_to_usd_spec(b1, d, price),
        amount_to_usd_spec(b2, d, price),
        s.token_swap_fee_before_tw_bps,
    );
    lemma_net_monotone(
        amount_to_usd_spec(a1 - b1, d, price),
        amount_to_usd_spec(a2 - b2, d, price),
        s.token_swap_fee_after_tw_bps,
    );
}

/// From any segment on, selling more is worth no less.
pub proof fn lemma_sold_value_from_monotone(
    k: int,
    current: int,
    offset: int,
    left1: int,
    left2: int,
    price: int,
    s: TokenSettings,
    target: int,
    curve: TokenPriceData,
)
    requires
        0 <= left1 <= left2,
        0 <= price,
        0 <= offset,
    ensures
        sold_value_from(k, current, offset, left1, price, s, target, curve) <= sold_value_from(
            k,
            current,
            offset,
            left2,
            price,
            s,
            target,
            curve,
        ),
    decreases 11 - k,
{
    if k < 0 || k > 10 {
    } else if k == 10 {
        lemma_sold_segment_monotone(left1, left2, current, target, s, price);
    } else {
        let p = sell_price_at(k, price, s, curve);
        let step = curve.amount[k] as int;
        if step <= offset {
            lemma_sold_value_from_monotone(
                k + 1,
                current,
                offset - step,
                left1,
                left2,
                p,
                s,
                target,
                curve,
            );
        } else {
            let cap = step - offset;
            let a1 = if cap > left1 {
                left1
            } else {
                cap
            };
            let a2 = if cap > left2 {
                left2
            } else {
                cap
            };
            lemma_sold_segment_monotone(a1, a2, current, target, s, p);
            lemma_sold_value_from_nonnegative(
                k + 1,
                current + a2,
                0,
                left2 - a2,
                p,
                s,
                target,
                curve,
            );
            if left1 - a1 != 0 {
                lemma_sold_value_from_monotone(
                    k + 1,
                    current + cap,
                    0,
                    left1 - cap,
                    left2 - cap,
                    p,
                    s,
                    target,
                    curve,
                );
            }
        }
    }
}

/// Selling more of a token to a fund is worth no less.
pub proof fn lemma_sold_value_monotone(
    amount1: int,
    amount2: int,
    s: TokenSettings,
    price: OraclePrice,
    start: int,
    target: int,
    curve: TokenPriceData,
)
    requires
        0 <= amount1 <= amount2,
    ensures
        0 <= sold_value(amount1, s, price, start, target, curve) <= sold_value(
            amount2,
            s,
            price,
            start,
            target,
            curve,
        ),
{
    let offset = if start > target {
        start - target
    } else {
        0
    };
    lemma_sold_value_from_nonnegative(
        0,
        start,
        offset,
        amount1,
        price.sell_price as int,
        s,
        target,
        curve,
    );
    lemma_sold_value_from_monotone(
        0,
        start,
        offset,
        amount1,
        amount2,
        price.sell_price as int,
        s,
        target,
        curve,
    );
}

/// The fee of the bought token does not depend on the side of its target:
/// either the inventory is at or below target, so that all of the leg lies
/// on one side, or the token charges no fee.
pub open spec fn fee_is_one_sided(s: TokenSettings, current: int, target: int) -> bool {
    current <= target || (s.token_swap_fee_before_tw_bps == 0 && s.token_swap_fee_after_tw_bps
        == 0)
}

/// The worth of the part of `value_left` that fits a segment of `capacity`.
pub open spec fn segment_worth(
    capacity: int,
    value_left: int,
    price: int,
    s: TokenSettings,
) -> int {
    let full = amount_to_usd_spec(capacity, s.decimals as nat, price);
    if full > value_left {
        value_left
    } else {
        full
    }
}

/// Where the fee is one-sided, a bought segment gives what its worth buys
/// once the fee past target is paid.
pub proof fn lemma_bought_segment_one_sided(
    capacity: int,
    current: int,
    value_left: int,
    price: int,
    s: TokenSettings,
    target: int,
)
    requires
        0 <= capacity,
        0 <= current,
        0 <= target,
        0 <= value_left <= u64::MAX,
        0 <= price,
        fee_is_one_sided(s, current, target),
    ensures
        ({
            let seg = bought_segment(capacity, current, value_left, price, s, target);
            let worth = segment_worth(capacity, value_left, price, s);
            &&& seg.value == worth
            &&& 0 <= worth <= value_left
            &&& seg.bought == usd_to_amount_spec(
                worth - fee_spec(worth, s.token_swap_fee_after_tw_bps as int),
                s.decimals as nat,
                price,
            )
        }),
{
    let d = s.decimals as nat;
    lemma_bought_segment_range(capacity, current, value_left, price, s, target);
    let worth = segment_worth(capacity, value_left, price, s);
    lemma_mul_div_zero_factor(s.token_swap_fee_before_tw_bps as int, 10000);
    lemma_mul_div_zero_factor(s.token_swap_fee_after_tw_bps as int, 10000);
    if current <= target {
    } else {
        let amount = if amount_to_usd_spec(capacity, d, price) > value_left {
            usd_to_amount_spec(value_left, d, price)
        } else {
            capacity
        };
        let value_before = if current <= target + amount {
            worth - amount_to_usd_spec(target + amount - current, d, price)
        } else {
            worth
        };
        lemma_mul_div_zero_factor(value_before, 10000);
        lemma_mul_div_zero_factor(worth - value_before, 10000);
        lemma_mul_div_zero_factor(worth, 10000);
    }
}

/// Where the fee is one-sided, a segment that is no shorter and is paid
/// out of no less gives no less.
pub proof fn lemma_bought_segment_monotone(
    cap1: int,
    cap2: int,
    current: int,
    v1: int,
    v2: int,
    price: int,
    s: TokenSettings,
    target: int,
)
    requires
        0 <= cap1 <= cap2,
        0 <= current,
        0 <= target,
        0 <= v1 <= v2 <= u64::MAX,
        0 <= price,
        fee_is_one_sided(s, current, target),
    ensures
        bought_segment(cap1, current, v1, price, s, target).bought <= bought_segment(
            cap2,
            current,
            v2,
            price,
            s,
            target,
        ).bought,
        bought_segment(cap1, current, v1, price, s, target).value <= bought_segment(
            cap2,
            current,
            v2,
            price,
            s,
            target,
        ).value,
{
    let d = s.decimals as nat;
    let dd = pow10(d) as int;
    lemma_pow10_increases(0, d);
    lemma_bought_segment_one_sided(cap1, current, v1, price, s, target);
    lemma_bought_segment_one_sided(cap2, current, v2, price, s, target);
    lemma_mul_div_monotone(cap1, cap2, price, dd);
    let w1 = segment_worth(cap1, v1, price, s);
    let w2 = segment_worth(cap2, v2, price, s);
    assert(w1 <= w2);
    lemma_net_monotone(w1, w2, s.token_swap_fee_after_tw_bps);
    lemma_fee_bounded(w1, s.token_swap_fee_after_tw_bps);
    lemma_mul_div_monotone(
        w1 - fee_spec(w1, s.token_swap_fee_after_tw_bps as int),
        w2 - fee_spec(w2, s.token_swap_fee_after_tw_bps as int),
        dd,
        price,
    );
}

/// Where the fee is one-sided, paying more buys no less from any segment on.
pub proof fn lemma_bought_amount_from_monotone(
    k: int,
    current: int,
    offset: int,
    v1: int,
    v2: int,
    price: int,
    s: TokenSettings,
    target: int,
    curve: TokenPriceData,
)
    requires
        0 <= current,
        0 <= target,
        0 <= offset,
        0 <= v1 <= v2 <= u64::MAX,
        0 <= price,
        fee_is_one_sided(s, current, target),
    ensures
        bought_amount_from(k, current, offset, v1, price, s, target, curve) <= bought_amount_from(
            k,
            current,
            offset,
            v2,
            price,
            s,
            target,
            curve,
        ),
    decreases 11 - k,
{
    let d = s.decimals as nat;
    let dd = pow10(d) as int;
    lemma_pow10_increases(0, d);
    if k < 0 || k > 10 {
    } else if k == 10 {
        let cap1 = usd_to_amount_spec(v1 * 2, d, price);
        let cap2 = usd_to_amount_spec(v2 * 2, d, price);
        lemma_mul_div_monotone(v1 * 2, v2 * 2, dd, price);
        lemma_mul_div_range(v1 * 2, dd, price);
        lemma_mul_div_range(v2 * 2, dd, price);
        lemma_bought_segment_range(cap2, current, v2, price, s, target);
        if cap1 != 0 {
            lemma_bought_segment_monotone(cap1, cap2, current, v1, v2, price, s, target);
        }
    } else {
        let p = buy_price_at(k, price, s, curve);
        let step = curve.amount[k] as int;
        if step <= offset {
            lemma_bought_amount_from_monotone(
                k + 1,
                current,
                offset - step,
                v1,
                v2,
                p,
                s,
                target,
                curve,
            );
        } else {
            let cap = step - offset;
            let seg1 = bought_segment(cap, current, v1, p, s, target);
            let seg2 = bought_segment(cap, current, v2, p, s, target);
            lemma_bought_segment_monotone(cap, cap, current, v1, v2, p, s, target);
            lemma_bought_segment_one_sided(cap, current, v1, p, s, target);
            lemma_bought_segment_one_sided(cap, current, v2, p, s, target);
            lemma_bought_segment_range(cap, current, v1, p, s, target);
            lemma_bought_segment_range(cap, current, v2, p, s, target);
            lemma_bought_amount_from_nonnegative(
                k + 1,
                inventory_after(current, seg2.bought),
                0,
                v2 - seg2.value,
                p,
                s,
                target,
                curve,
            );
            if v1 - seg1.value != 0 {
                assert(seg1.value == seg2.value);
                assert(seg1.bought == seg2.bought);
                lemma_bought_amount_from_monotone(
                    k + 1,
                    inventory_after(current, seg1.bought),
                    0,
                    v1 - seg1.value,
                    v2 - seg2.value,
                    p,
                    s,
                    target,
                    curve,
                );
            }
        }
    }
}

/// Where the fee is one-sided, paying more for a token buys no less of it.
pub proof fn lemma_bought_amount_monotone(
    value1: int,
    value2: int,
    s: TokenSettings,
    price: OraclePrice,
    start: int,
    target: int,
    curve: TokenPriceData,
)
    requires
        0 <= value1 <= value2 <= u64::MAX,
        0 <= start,
        0 <= target,
        fee_is_one_sided(s, start, target),
    ensures
        0 <= bought_amount(value1, s, price, start, target, curve) <= bought_amount(
            value2,
            s,
            price,
            start,
            target,
            curve,
        ),
{
    let offset = if start < target {
        target - start
    } else {
        0
    };
    lemma_bought_amount_from_nonnegative(
        0,
        start,
        offset,
        value1,
        price.buy_price as int,
        s,
        target,
        curve,
    );
    lemma_bought_amount_from_monotone(
        0,
        start,
        offset,
        value1,
        value2,
        price.buy_price as int,
        s,
        target,
        curve,
    );
}

} // verus!
