//! The curve walker: pricing one leg of a swap against a token's curve.
//!
//! A leg is priced segment by segment. The ten curve points give the next
//! inventory steps away from the token's target; a terminal segment absorbs
//! what the ten points leave over, at the last price reached. A curve point
//! only ever worsens the price of the leg.

use crate::accounts::{OraclePrice, TokenPriceData, TokenSettings, USE_CURVE_DATA};
use crate::error::AmmError;
use crate::fixed_point::{
    amount_to_usd_spec, lemma_mul_div_range, lemma_mul_div_share, lemma_pow10_increases,
    lemma_mul_div_monotone, lemma_usd_round_trip, mul_div_spec, mul_pow10_div, pow10,
    usd_to_amount_spec, BPS_DIVIDER,
};
use crate::symmetry_token_swap::SymmetryTokenSwap;
use vstd::prelude::*;

verus! {

/// The fee charged on `value` at `bps` basis points.
pub open spec fn fee_spec(value: int, bps: int) -> int {
    mul_div_spec(value, bps, 10000)
}

/// Of `amount` units sold into an inventory of `current`, the part that
/// arrives while the inventory is still below `target`.
pub open spec fn sold_before_target(current: int, amount: int, target: int) -> int {
    if current >= target {
        0
    } else if current + amount >= target {
        target - current
    } else {
        amount
    }
}

/// Net worth of one sold segment: `amount` units at `price`, of which
/// `before` arrive below target, less the fees of either part.
pub open spec fn sold_segment_value(amount: int, before: int, s: TokenSettings, price: int) -> int {
    let value_before = amount_to_usd_spec(before, s.decimals as nat, price);
    let value_after = amount_to_usd_spec(amount - before, s.decimals as nat, price);
    value_before + value_after - fee_spec(value_before, s.token_swap_fee_before_tw_bps as int)
        - fee_spec(value_after, s.token_swap_fee_after_tw_bps as int)
}

/// The price of a sell leg once curve point `k` has been seen: the point's
/// price where the curve is enabled and the point is below the price so far.
pub open spec fn sell_price_at(k: int, price: int, s: TokenSettings, curve: TokenPriceData) -> int {
    if 0 <= k < 10 && curve.price[k] < price && s.use_curve_data == USE_CURVE_DATA {
        curve.price[k] as int
    } else {
        price
    }
}

/// The price of a buy leg once curve point `k` has been seen: the point's
/// price where the curve is enabled and the point is above the price so far.
pub open spec fn buy_price_at(k: int, price: int, s: TokenSettings, curve: TokenPriceData) -> int {
    if 0 <= k < 10 && curve.price[k] > price && s.use_curve_data == USE_CURVE_DATA {
        curve.price[k] as int
    } else {
        price
    }
}

/// Net worth of selling `left` units from segment `k` on, with the inventory
/// at `current`, `offset` units of curve still to skip and `price` reached.
pub open spec fn sold_value_from(
    k: int,
    current: int,
    offset: int,
    left: int,
    price: int,
    s: TokenSettings,
    target: int,
    curve: TokenPriceData,
) -> int
    decreases 11 - k,
{
    if k < 0 || k > 10 {
        0
    } else if k == 10 {
        sold_segment_value(left, sold_before_target(current, left, target), s, price)
    } else {
        let p = sell_price_at(k, price, s, curve);
        let step = curve.amount[k] as int;
        if step <= offset {
            sold_value_from(k + 1, current, offset - step, left, p, s, target, curve)
        } else {
            let amount = if step - offset > left {
                left
            } else {
                step - offset
            };
            let net = sold_segment_value(
                amount,
                sold_before_target(current, amount, target),
                s,
                p,
            );
            if left - amount == 0 {
                net
            } else {
                net + sold_value_from(
                    k + 1,
                    current + amount,
                    0,
                    left - amount,
                    p,
                    s,
                    target,
                    curve,
                )
            }
        }
    }
}

/// Net worth in canonical USD units of selling `amount` units of a token to
/// a fund that holds `start` units of it against a target of `target`.
pub open spec fn sold_value(
    amount: int,
    s: TokenSettings,
    price: OraclePrice,
    start: int,
    target: int,
    curve: TokenPriceData,
) -> int {
    let offset = if start > target {
        start - target
    } else {
        0
    };
    sold_value_from(0, start, offset, amount, price.sell_price as int, s, target, curve)
}

/// What one bought segment takes and gives.
pub struct BoughtSegment {
    /// Worth spent on the segment.
    pub value: int,
    /// Units bought for it, fees deducted.
    pub bought: int,
}

/// One bought segment: up to `capacity` units at `price`, paid out of
/// `value_left`, with the inventory at `current`.
pub open spec fn bought_segment(
    capacity: int,
    current: int,
    value_left: int,
    price: int,
    s: TokenSettings,
    target: int,
) -> BoughtSegment {
    let d = s.decimals as nat;
    let full = amount_to_usd_spec(capacity, d, price);
    let value = if full > value_left {
        value_left
    } else {
        full
    };
    let amount = if full > value_left {
        usd_to_amount_spec(value_left, d, price)
    } else {
        capacity
    };
    let value_before = if current <= target {
        0
    } else if current <= target + amount {
        value - amount_to_usd_spec(target + amount - current, d, price)
    } else {
        value
    };
    let value_after = value - value_before;
    let fees = fee_spec(value_before, s.token_swap_fee_before_tw_bps as int) + fee_spec(
        value_after,
        s.token_swap_fee_after_tw_bps as int,
    );
    BoughtSegment { value, bought: usd_to_amount_spec(value - fees, d, price) }
}

/// The inventory after `bought` units have left it.
pub open spec fn inventory_after(current: int, bought: int) -> int {
    if bought > current {
        0
    } else {
        current - bought
    }
}

/// Units bought for `value_left` from segment `k` on, with the inventory at
/// `current`, `offset` units of curve still to skip and `price` reached.
pub open spec fn bought_amount_from(
    k: int,
    current: int,
    offset: int,
    value_left: int,
    price: int,
    s: TokenSettings,
    target: int,
    curve: TokenPriceData,
) -> int
    decreases 11 - k,
{
    if k < 0 || k > 10 {
        0
    } else if k == 10 {
        let capacity = usd_to_amount_spec(value_left * 2, s.decimals as nat, price);
        if capacity == 0 {
            0
        } else {
            bought_segment(capacity, current, value_left, price, s, target).bought
        }
    } else {
        let p = buy_price_at(k, price, s, curve);
        let step = curve.amount[k] as int;
        if step <= offset {
            bought_amount_from(k + 1, current, offset - step, value_left, p, s, target, curve)
        } else {
            let seg = bought_segment(step - offset, current, value_left, p, s, target);
            if value_left - seg.value == 0 {
                seg.bought
            } else {
                seg.bought + bought_amount_from(
                    k + 1,
                    inventory_after(current, seg.bought),
                    0,
                    value_left - seg.value,
                    p,
                    s,
                    target,
                    curve,
                )
            }
        }
    }
}

/// Units of a token that `value` canonical USD units buy from a fund that
/// holds `start` units of it against a target of `target`.
pub open spec fn bought_amount(
    value: int,
    s: TokenSettings,
    price: OraclePrice,
    start: int,
    target: int,
    curve: TokenPriceData,
) -> int {
    let offset = if start < target {
        target - start
    } else {
        0
    };
    bought_amount_from(0, start, offset, value, price.buy_price as int, s, target, curve)
}

/// A fee never exceeds the value it is charged on.
pub proof fn lemma_fee_bounded(value: int, bps: u8)
    requires
        0 <= value <= u64::MAX,
    ensures
        0 <= fee_spec(value, bps as int) <= value,
{
    lemma_mul_div_share(value, bps as int, 10000);
}

/// A sold segment is worth something between nothing and twice the 64-bit range.
pub proof fn lemma_sold_segment_range(amount: int, before: int, s: TokenSettings, price: int)
    requires
        0 <= before <= amount,
        0 <= price,
    ensures
        0 <= sold_segment_value(amount, before, s, price) <= 2 * u64::MAX,
{
    let d = pow10(s.decimals as nat) as int;
    lemma_pow10_increases(0, s.decimals as nat);
    lemma_mul_div_range(before, price, d);
    lemma_mul_div_range(amount - before, price, d);
    lemma_fee_bounded(
        amount_to_usd_spec(before, s.decimals as nat, price),
        s.token_swap_fee_before_tw_bps,
    );
    lemma_fee_bounded(
        amount_to_usd_spec(amount - before, s.decimals as nat, price),
        s.token_swap_fee_after_tw_bps,
    );
}

/// What remains to be earned from any segment on is never negative.
pub proof fn lemma_sold_value_from_nonnegative(
    k: int,
    current: int,
    offset: int,
    left: int,
    price: int,
    s: TokenSettings,
    target: int,
    curve: TokenPriceData,
)
    requires
        0 <= left,
        0 <= price,
        0 <= offset,
    ensures
        0 <= sold_value_from(k, current, offset, left, price, s, target, curve),
    decreases 11 - k,
{
    if k < 0 || k > 10 {
    } else if k == 10 {
        lemma_sold_segment_range(left, sold_before_target(current, left, target), s, price);
    } else {
        let p = sell_price_at(k, price, s, curve);
        let step = curve.amount[k] as int;
        if step <= offset {
            lemma_sold_value_from_nonnegative(
                k + 1,
                current,
                offset - step,
                left,
                p,
                s,
                target,
                curve,
            );
        } else {
            let amount = if step - offset > left {
                left
            } else {
                step - offset
            };
            lemma_sold_segment_range(amount, sold_before_target(current, amount, target), s, p);
            lemma_sold_value_from_nonnegative(
                k + 1,
                current + amount,
                0,
                left - amount,
                p,
                s,
                target,
                curve,
            );
        }
    }
}

/// A bought segment spends no more than is left and buys a 64-bit amount.
pub proof fn lemma_bought_segment_range(
    capacity: int,
    current: int,
    value_left: int,
    price: int,
    s: TokenSettings,
    target: int,
)
    requires
        0 <= capacity,
        0 <= current,
        0 <= target,
        0 <= value_left <= u64::MAX,
        0 <= price,
    ensures
        0 <= bought_segment(capacity, current, value_left, price, s, target).value <= value_left,
        0 <= bought_segment(capacity, current, value_left, price, s, target).bought <= u64::MAX,
{
    let d = s.decimals as nat;
    let dd = pow10(d) as int;
    lemma_pow10_increases(0, d);
    lemma_mul_div_range(capacity, price, dd);
    let full = amount_to_usd_spec(capacity, d, price);
    let value = if full > value_left {
        value_left
    } else {
        full
    };
    let amount = if full > value_left {
        usd_to_amount_spec(value_left, d, price)
    } else {
        capacity
    };
    lemma_mul_div_range(value_left, dd, price);
    assert(amount_to_usd_spec(amount, d, price) <= value) by {
        if full > value_left {
            lemma_usd_round_trip(value_left, d, price);
        }
    }
    let value_before = if current <= target {
        0
    } else if current <= target + amount {
        value - amount_to_usd_spec(target + amount - current, d, price)
    } else {
        value
    };
    if current > target && current <= target + amount {
        lemma_mul_div_monotone(target + amount - current, amount, price, dd);
        lemma_mul_div_range(target + amount - current, price, dd);
    }
    assert(0 <= value_before <= value);
    let value_after = value - value_before;
    lemma_fee_bounded(value_before, s.token_swap_fee_before_tw_bps);
    lemma_fee_bounded(value_after, s.token_swap_fee_after_tw_bps);
    let fees = fee_spec(value_before, s.token_swap_fee_before_tw_bps as int) + fee_spec(
        value_after,
        s.token_swap_fee_after_tw_bps as int,
    );
    lemma_mul_div_range(value - fees, dd, price);
}

/// What remains to be bought from any segment on is never negative.
pub proof fn lemma_bought_amount_from_nonnegative(
    k: int,
    current: int,
    offset: int,
    value_left: int,
    price: int,
    s: TokenSettings,
    target: int,
    curve: TokenPriceData,
)
    requires
        0 <= current,
        0 <= target,
        0 <= offset,
        0 <= value_left <= u64::MAX,
        0 <= price,
    ensures
        0 <= bought_amount_from(k, current, offset, value_left, price, s, target, curve),
    decreases 11 - k,
{
    if k < 0 || k > 10 {
    } else if k == 10 {
        let capacity = usd_to_amount_spec(value_left * 2, s.decimals as nat, price);
        lemma_pow10_increases(0, s.decimals as nat);
        lemma_mul_div_range(value_left * 2, pow10(s.decimals as nat) as int, price);
        lemma_bought_segment_range(capacity, current, value_left, price, s, target);
    } else {
        let p = buy_price_at(k, price, s, curve);
        let step = curve.amount[k] as int;
        if step <= offset {
            lemma_bought_amount_from_nonnegative(
                k + 1,
                current,
                offset - step,
                value_left,
                p,
                s,
                target,
                curve,
            );
        } else {
            let seg = bought_segment(step - offset, current, value_left, p, s, target);
            lemma_bought_segment_range(step - offset, current, value_left, p, s, target);
            lemma_bought_amount_from_nonnegative(
                k + 1,
                inventory_after(current, seg.bought),
                0,
                value_left - seg.value,
                p,
                s,
                target,
                curve,
            );
        }
    }
}

/// Net worth of one sold segment and the fact that it fits twice the 64-bit range.
fn sold_segment(amount: u64, before: u64, s: &TokenSettings, price: u64) -> (net: u128)
    requires
        before <= amount,
    ensures
        net == sold_segment_value(amount as int, before as int, *s, price as int),
        net <= 2 * u64::MAX,
{
    let value_before = SymmetryTokenSwap::amount_to_usd_value(before, s.decimals, price);
    let value_after = SymmetryTokenSwap::amount_to_usd_value(amount - before, s.decimals, price);
    let fee_before = SymmetryTokenSwap::mul_div(
        value_before,
        s.token_swap_fee_before_tw_bps as u64,
        BPS_DIVIDER,
    );
    let fee_after = SymmetryTokenSwap::mul_div(
        value_after,
        s.token_swap_fee_after_tw_bps as u64,
        BPS_DIVIDER,
    );
    proof {
        lemma_fee_bounded(value_before as int, s.token_swap_fee_before_tw_bps);
        lemma_fee_bounded(value_after as int, s.token_swap_fee_after_tw_bps);
    }
    (value_before - fee_before) as u128 + (value_after - fee_after) as u128
}

/// Of `amount` units sold into an inventory of `current`, the part below `target`.
fn split_before_target(current: u128, amount: u64, target: u64) -> (before: u64)
    requires
        current <= 2 * u64::MAX,
    ensures
        before == sold_before_target(current as int, amount as int, target as int),
        before <= amount,
{
    if current >= target as u128 {
        0
    } else if current + amount as u128 >= target as u128 {
        (target as u128 - current) as u64
    } else {
        amount
    }
}

/// One bought segment: the worth it takes and the units it gives.
fn buy_segment(
    capacity: u64,
    current: u64,
    value_left: u64,
    price: u64,
    s: &TokenSettings,
    target: u64,
) -> (r: (u64, u64))
    ensures
        r.0 == bought_segment(
            capacity as int,
            current as int,
            value_left as int,
            price as int,
            *s,
            target as int,
        ).value,
        r.1 == bought_segment(
            capacity as int,
            current as int,
            value_left as int,
            price as int,
            *s,
            target as int,
        ).bought,
        r.0 <= value_left,
{
    proof {
        lemma_bought_segment_range(
            capacity as int,
            current as int,
            value_left as int,
            price as int,
            *s,
            target as int,
        );
    }
    let full = SymmetryTokenSwap::amount_to_usd_value(capacity, s.decimals, price);
    let mut value = full;
    let mut amount = capacity;
    if full > value_left {
        value = value_left;
        amount = SymmetryTokenSwap::usd_value_to_amount(value_left, s.decimals, price);
    }
    let mut value_before = value;
    if current <= target {
        value_before = 0;
    } else if current as u128 <= target as u128 + amount as u128 {
        let crossing: u64 = (target as u128 + amount as u128 - current as u128) as u64;
        let part = SymmetryTokenSwap::amount_to_usd_value(crossing, s.decimals, price);
        proof {
            let d = s.decimals as nat;
            lemma_pow10_increases(0, d);
            lemma_mul_div_monotone(crossing as int, amount as int, price as int, pow10(d) as int);
            if full > value_left {
                lemma_usd_round_trip(value_left as int, d, price as int);
            }
        }
        value_before = value - part;
    }
    let value_after = value - value_before;
    let fee_before = SymmetryTokenSwap::mul_div(
        value_before,
        s.token_swap_fee_before_tw_bps as u64,
        BPS_DIVIDER,
    );
    let fee_after = SymmetryTokenSwap::mul_div(
        value_after,
        s.token_swap_fee_after_tw_bps as u64,
        BPS_DIVIDER,
    );
    proof {
        lemma_fee_bounded(value_before as int, s.token_swap_fee_before_tw_bps);
        lemma_fee_bounded(value_after as int, s.token_swap_fee_after_tw_bps);
    }
    let bought = SymmetryTokenSwap::usd_value_to_amount(
        value - fee_before - fee_after,
        s.decimals,
        price,
    );
    (value, bought)
}

impl SymmetryTokenSwap {
    /// Prices the sell leg of a swap: the net worth, in canonical USD units,
    /// of `amount` units delivered to a fund that holds `start_amount` of the
    /// token against a target of `target_amount`.
    ///
    /// Fails with `ArithmeticOverflow` exactly where that worth exceeds the
    /// 64-bit range.
    pub fn compute_value_of_sold_token(
        amount: u64,
        token_settings: TokenSettings,
        price: OraclePrice,
        start_amount: u64,
        target_amount: u64,
        curve_data: TokenPriceData,
    ) -> (r: Result<u64, AmmError>)
        ensures
            match r {
                Ok(v) => v == sold_value(
                    amount as int,
                    token_settings,
                    price,
                    start_amount as int,
                    target_amount as int,
                    curve_data,
                ),
                Err(e) => e == AmmError::ArithmeticOverflow && sold_value(
                    amount as int,
                    token_settings,
                    price,
                    start_amount as int,
                    target_amount as int,
                    curve_data,
                ) > u64::MAX,
            },
    {
        let ghost total = sold_value(
            amount as int,
            token_settings,
            price,
            start_amount as int,
            target_amount as int,
            curve_data,
        );
        let mut current: u128 = start_amount as u128;
        let mut offset: u64 = if start_amount > target_amount {
            start_amount - target_amount
        } else {
            0
        };
        let mut output: u64 = 0;
        let mut left: u64 = amount;
        let mut current_price: u64 = price.sell_price;
        let mut step: usize = 0;
        while step < 10
            invariant
                step <= 10,
                left <= amount,
                current == start_amount + (amount - left),
                total == sold_value(
                    amount as int,
                    token_settings,
                    price,
                    start_amount as int,
                    target_amount as int,
                    curve_data,
                ),
                total == output + sold_value_from(
                    step as int,
                    current as int,
                    offset as int,
                    left as int,
                    current_price as int,
                    token_settings,
                    target_amount as int,
                    curve_data,
                ),
            decreases 10 - step,
        {
            if curve_data.price[step] < current_price && token_settings.use_curve_data
                == USE_CURVE_DATA {
                current_price = curve_data.price[step];
            }
            let step_amount = curve_data.amount[step];
            if step_amount <= offset {
                offset = offset - step_amount;
            } else {
                let mut in_interval = step_amount - offset;
                offset = 0;
                if in_interval > left {
                    in_interval = left;
                }
                let before = split_before_target(current, in_interval, target_amount);
                let net = sold_segment(in_interval, before, &token_settings, current_price);
                proof {
                    lemma_sold_value_from_nonnegative(
                        step + 1,
                        current + in_interval,
                        0,
                        left - in_interval,
                        current_price as int,
                        token_settings,
                        target_amount as int,
                        curve_data,
                    );
                }
                let sum: u128 = output as u128 + net;
                if sum > u64::MAX as u128 {
                    return Err(AmmError::ArithmeticOverflow);
                }
                output = sum as u64;
                left = left - in_interval;
                current = current + in_interval as u128;
                if left == 0 {
                    return Ok(output);
                }
            }
            step += 1;
        }
        let before = split_before_target(current, left, target_amount);
        let net = sold_segment(left, before, &token_settings, current_price);
        let sum: u128 = output as u128 + net;
        if sum > u64::MAX as u128 {
            return Err(AmmError::ArithmeticOverflow);
        }
        Ok(sum as u64)
    }

    /// Prices the buy leg of a swap: the units of a token that `value`
    /// canonical USD units buy from a fund that holds `start_amount` of it
    /// against a target of `target_amount`.
    ///
    /// Fails with `ArithmeticOverflow` exactly where that number of units
    /// exceeds the 64-bit range.
    pub fn compute_amount_of_bought_token(
        value: u64,
        token_settings: TokenSettings,
        price: OraclePrice,
        start_amount: u64,
        target_amount: u64,
        curve_data: TokenPriceData,
    ) -> (r: Result<u64, AmmError>)
        ensures
            match r {
                Ok(v) => v == bought_amount(
                    value as int,
                    token_settings,
                    price,
                    start_amount as int,
                    target_amount as int,
                    curve_data,
                ),
                Err(e) => e == AmmError::ArithmeticOverflow && bought_amount(
                    value as int,
                    token_settings,
                    price,
                    start_amount as int,
                    target_amount as int,
                    curve_data,
                ) > u64::MAX,
            },
    {
        let ghost total = bought_amount(
            value as int,
            token_settings,
            price,
            start_amount as int,
            target_amount as int,
            curve_data,
        );
        let mut current: u64 = start_amount;
        let mut offset: u64 = if start_amount < target_amount {
            target_amount - start_amount
        } else {
            0
        };
        let mut output: u64 = 0;
        let mut value_left: u64 = value;
        let mut current_price: u64 = price.buy_price;
        let mut step: usize = 0;
        while step < 10
            invariant
                step <= 10,
                total == bought_amount(
                    value as int,
                    token_settings,
                    price,
                    start_amount as int,
                    target_amount as int,
                    curve_data,
                ),
                total == output + bought_amount_from(
                    step as int,
                    current as int,
                    offset as int,
                    value_left as int,
                    current_price as int,
                    token_settings,
                    target_amount as int,
                    curve_data,
                ),
            decreases 10 - step,
        {
            if curve_data.price[step] > current_price && token_settings.use_curve_data
                == USE_CURVE_DATA {
                current_price = curve_data.price[step];
            }
            let step_amount = curve_data.amount[step];
            if step_amount <= offset {
                offset = offset - step_amount;
            } else {
                let (spent, bought) = buy_segment(
                    step_amount - offset,
                    current,
                    value_left,
                    current_price,
                    &token_settings,
                    target_amount,
                );
                offset = 0;
                proof {
                    lemma_bought_amount_from_nonnegative(
                        step + 1,
                        inventory_after(current as int, bought as int),
                        0,
                        value_left - spent,
                        current_price as int,
                        token_settings,
                        target_amount as int,
                        curve_data,
                    );
                }
                let sum: u128 = output as u128 + bought as u128;
                if sum > u64::MAX as u128 {
                    return Err(AmmError::ArithmeticOverflow);
                }
                output = sum as u64;
                value_left = value_left - spent;
                current = if bought > current {
                    0
                } else {
                    current - bought
                };
                if value_left == 0 {
                    return Ok(output);
                }
            }
            step += 1;
        }
        let capacity = mul_pow10_div(
            value_left as u128 * 2,
            token_settings.decimals as u32,
            current_price,
        );
        if capacity == 0 {
            return Ok(output);
        }
        let (_, bought) = buy_segment(
            capacity,
            current,
            value_left,
            current_price,
            &token_settings,
            target_amount,
        );
        let sum: u128 = output as u128 + bought as u128;
        if sum > u64::MAX as u128 {
            return Err(AmmError::ArithmeticOverflow);
        }
        Ok(sum as u64)
    }
}

} // verus!
