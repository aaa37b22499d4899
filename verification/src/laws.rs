//! Laws of the quote engine and of the instruction plan.

use crate::accounts::{CurveData, FundState, TokenList};
use crate::address::{lemma_address_equal, Address};
use crate::amm::{AccountMeta, SwapParams};
use crate::curve::{lemma_bought_amount_from_nonnegative, lemma_sold_value_from_nonnegative};
use crate::curve_laws::{fee_is_one_sided, lemma_bought_amount_monotone, lemma_sold_value_monotone};
use crate::error::AmmError;
use crate::fixed_point::{
    amount_to_usd_spec, lemma_mul_div_monotone, lemma_mul_div_range, lemma_mul_div_zero_factor,
    lemma_pow10_increases, mul_div_spec, pow10,
};
use crate::instruction::FeeAccounts;
use crate::quote::{
    all_live, fund_worth_spec, holding_position, holding_token, lemma_worth_of_first_range,
    mint_position, mints_resolve, priced_quote, quote_spec, swap_math, swap_overflows,
    target_amount_spec, QuoteModel,
};
use crate::symmetry_token_swap::{swap_planned, Snapshot};
use vstd::prelude::*;

verus! {

/// The fee of a swap is divided without remainder: what the protocol, the
/// host, the manager and the fund receive adds up to the whole fee, and in
/// a quote that is given none of them receives less than nothing.
pub proof fn lemma_fee_split_conserved(
    fs: FundState,
    tl: TokenList,
    cd: CurveData,
    from_id: int,
    from_index: int,
    to_id: int,
    to_index: int,
    in_amount: int,
)
    ensures
        ({
            let m = swap_math(fs, tl, cd, from_id, from_index, to_id, to_index, in_amount);
            &&& m.symmetry_fee + m.host_fee + m.manager_fee + m.fund_fee == m.total_fees
            &&& priced_quote(fs, tl, cd, from_id, from_index, to_id, to_index, in_amount) is Ok
                ==> 0 <= m.symmetry_fee && 0 <= m.host_fee && 0 <= m.manager_fee && 0
                <= m.fund_fee
        }),
{
    let m = swap_math(fs, tl, cd, from_id, from_index, to_id, to_index, in_amount);
    if priced_quote(fs, tl, cd, from_id, from_index, to_id, to_index, in_amount) is Ok {
        assert(!swap_overflows(m, fs.current_comp_amount[from_index] as int, in_amount));
        assert(0 <= m.total_fees);
        lemma_mul_div_range(m.total_fees, tl.list[0].symmetry_share(), 100);
        lemma_mul_div_range(m.total_fees, tl.list[0].host_share(), 100);
        lemma_mul_div_range(m.total_fees, tl.list[0].manager_share(), 100);
    }
}

/// A fund with an oracle that is not live quotes nothing: whichever mints
/// are asked for, the quote fails, and where both mints resolve it fails
/// for that reason.
pub proof fn lemma_quote_needs_live_oracles(
    fs: FundState,
    tl: TokenList,
    cd: CurveData,
    input_mint: Address,
    in_amount: int,
    output_mint: Address,
    slot: int,
)
    requires
        0 <= slot < fs.num_of_tokens,
        holding_token(fs, tl, slot).oracle_price.oracle_live == 0,
    ensures
        quote_spec(fs, tl, cd, input_mint, in_amount, output_mint) is Err,
        mints_resolve(fs, tl, input_mint, output_mint) ==> quote_spec(
            fs,
            tl,
            cd,
            input_mint,
            in_amount,
            output_mint,
        ) == Err::<QuoteModel, AmmError>(AmmError::OracleNotLive),
{
    assert(!all_live(fs, tl));
}

/// A quote for nothing gives nothing and costs nothing: with an input of
/// zero, the output, the fee and the price impact are zero.
pub proof fn lemma_quote_of_zero(
    fs: FundState,
    tl: TokenList,
    cd: CurveData,
    input_mint: Address,
    output_mint: Address,
)
    ensures
        quote_spec(fs, tl, cd, input_mint, 0, output_mint) matches Ok(m) ==> m.out_amount == 0
            && m.fee_amount == 0 && m.price_impact_bps == 0 && m.fee_bps == 0,
{
    if let Ok(model) = quote_spec(fs, tl, cd, input_mint, 0, output_mint) {
        let from_id = mint_position(tl, input_mint).unwrap();
        let to_id = mint_position(tl, output_mint).unwrap();
        let from_index = holding_position(fs, from_id).unwrap();
        let to_index = holding_position(fs, to_id).unwrap();
        let m = swap_math(fs, tl, cd, from_id, from_index, to_id, to_index, 0);
        let from = tl.list[from_id];
        let to = tl.list[to_id];
        assert(!swap_overflows(m, fs.current_comp_amount[from_index] as int, 0));
        lemma_pow10_increases(0, from.decimals as nat);
        lemma_pow10_increases(0, to.decimals as nat);
        lemma_mul_div_zero_factor(
            from.oracle_price.avg_price as int,
            pow10(from.decimals as nat) as int,
        );
        lemma_mul_div_zero_factor(
            from.oracle_price.sell_price as int,
            pow10(from.decimals as nat) as int,
        );
        lemma_mul_div_zero_factor(
            pow10(to.decimals as nat) as int,
            to.oracle_price.avg_price as int,
        );
        lemma_mul_div_zero_factor(
            pow10(to.decimals as nat) as int,
            to.oracle_price.buy_price as int,
        );
        assert(m.fair == 0);
        assert(m.amount_without_fees == 0);
        let from_held = fs.current_comp_amount[from_index] as int;
        let to_held = fs.current_comp_amount[to_index] as int;
        let start_offset = if from_held > m.from_target {
            from_held - m.from_target
        } else {
            0
        };
        lemma_sold_value_from_nonnegative(
            0,
            from_held,
            start_offset,
            0,
            from.oracle_price.sell_price as int,
            from,
            m.from_target,
            cd.sell[from_id],
        );
        lemma_mul_div_range(
            fs.target_weight[to_index] as int,
            m.worth,
            fs.weight_sum as int,
        );
        lemma_mul_div_range(
            crate::fixed_point::mul_div_spec(
                fs.target_weight[to_index] as int,
                m.worth,
                fs.weight_sum as int,
            ),
            pow10(to.decimals as nat) as int,
            to.oracle_price.avg_price as int,
        );
        let buy_offset = if to_held < m.to_target {
            m.to_target - to_held
        } else {
            0
        };
        lemma_bought_amount_from_nonnegative(
            0,
            to_held,
            buy_offset,
            m.value,
            to.oracle_price.buy_price as int,
            to,
            m.to_target,
            cd.buy[to_id],
        );
        assert(m.out == 0);
        assert(m.total_fees == 0);
        lemma_mul_div_zero_factor(1_000_000, 0);
    }
}

/// Two tokens with the same decimals and the same prices are priced alike
/// in either direction: the fair amount of a swap of `in_amount` from one
/// to the other is that of the mirrored swap, and so is the price impact
/// where the fund holds enough of both to give the unfeed amount in full.
pub proof fn lemma_mirrored_price_impact(
    fs: FundState,
    tl: TokenList,
    cd: CurveData,
    a: int,
    a_index: int,
    b: int,
    b_index: int,
    in_amount: int,
)
    requires
        tl.list[a].decimals == tl.list[b].decimals,
        tl.list[a].oracle_price.sell_price == tl.list[b].oracle_price.sell_price,
        tl.list[a].oracle_price.avg_price == tl.list[b].oracle_price.avg_price,
        tl.list[a].oracle_price.buy_price == tl.list[b].oracle_price.buy_price,
    ensures
        ({
            let there = swap_math(fs, tl, cd, a, a_index, b, b_index, in_amount);
            let back = swap_math(fs, tl, cd, b, b_index, a, a_index, in_amount);
            &&& there.fair == back.fair
            &&& (there.amount_without_fees < fs.current_comp_amount[b_index]
                && back.amount_without_fees < fs.current_comp_amount[a_index]
                ==> there.impact_bps == back.impact_bps)
        }),
{
}

/// The account list of a swap is fixed by the snapshot and the request:
/// two plans for the same request list the same accounts in the same order.
pub proof fn lemma_swap_plan_deterministic(
    snapshot: Snapshot,
    params: SwapParams,
    first: Seq<AccountMeta>,
    second: Seq<AccountMeta>,
)
    requires
        swap_planned(snapshot, params, first),
        swap_planned(snapshot, params, second),
    ensures
        first == second,
{
    lemma_address_equal(first[7].pubkey, second[7].pubkey);
    lemma_address_equal(first[8].pubkey, second[8].pubkey);
    lemma_address_equal(first[9].pubkey, second[9].pubkey);
    let fees_first = FeeAccounts {
        swap_fee: first[7].pubkey,
        host_fee: first[8].pubkey,
        manager_fee: first[9].pubkey,
    };
    let fees_second = FeeAccounts {
        swap_fee: second[7].pubkey,
        host_fee: second[8].pubkey,
        manager_fee: second[9].pubkey,
    };
    assert(fees_first == fees_second);
}

/// The output of the quote for a swap between two resolved tokens, where a
/// quote is given and the swap stays inside the weight band.
pub open spec fn accepted_output(
    fs: FundState,
    tl: TokenList,
    cd: CurveData,
    from_id: int,
    from_index: int,
    to_id: int,
    to_index: int,
    in_amount: int,
) -> Option<int> {
    match priced_quote(fs, tl, cd, from_id, from_index, to_id, to_index, in_amount) {
        Ok(model) => if model.not_enough_liquidity {
            None
        } else {
            Some(model.out_amount)
        },
        Err(_) => None,
    }
}

/// The units of the bought token that the fund aims to hold.
pub open spec fn bought_target(fs: FundState, tl: TokenList, to_id: int, to_index: int) -> int {
    target_amount_spec(fs, tl.list[to_id], fund_worth_spec(fs, tl), to_index)
}

/// Among the swaps that a fund accepts, a larger input gives no smaller
/// output, and no output exceeds what the fund holds of the bought token:
/// an output that has reached the holding stays there.
///
/// This holds where the fee of the bought token does not depend on the side
/// of its target: the fund holds no more of it than it aims to, or the token
/// charges no fee. Where a leg crosses the target of a token whose two fees
/// differ, one more unit of input can move the whole worth of one unit of
/// the token from the cheaper side to the dearer one, and the output can fall.
pub proof fn lemma_quote_monotone(
    fs: FundState,
    tl: TokenList,
    cd: CurveData,
    from_id: int,
    from_index: int,
    to_id: int,
    to_index: int,
    smaller: int,
    larger: int,
)
    requires
        0 <= smaller <= larger,
        accepted_output(fs, tl, cd, from_id, from_index, to_id, to_index, smaller) is Some,
        accepted_output(fs, tl, cd, from_id, from_index, to_id, to_index, larger) is Some,
        fee_is_one_sided(
            tl.list[to_id],
            fs.current_comp_amount[to_index] as int,
            bought_target(fs, tl, to_id, to_index),
        ),
    ensures
        accepted_output(fs, tl, cd, from_id, from_index, to_id, to_index, smaller).unwrap()
            <= accepted_output(fs, tl, cd, from_id, from_index, to_id, to_index, larger).unwrap(),
        accepted_output(fs, tl, cd, from_id, from_index, to_id, to_index, larger).unwrap()
            <= fs.current_comp_amount[to_index],
{
    let m1 = swap_math(fs, tl, cd, from_id, from_index, to_id, to_index, smaller);
    let m2 = swap_math(fs, tl, cd, from_id, from_index, to_id, to_index, larger);
    let from = tl.list[from_id];
    let to = tl.list[to_id];
    let from_held = fs.current_comp_amount[from_index] as int;
    let to_held = fs.current_comp_amount[to_index] as int;
    assert(!swap_overflows(m1, from_held, smaller));
    assert(!swap_overflows(m2, from_held, larger));
    let from_d = from.decimals as nat;
    let to_d = to.decimals as nat;
    lemma_pow10_increases(0, from_d);
    lemma_pow10_increases(0, to_d);
    lemma_worth_of_first_range(fs, tl, fs.num_of_tokens as int);
    lemma_sold_value_monotone(
        smaller,
        larger,
        from,
        from.oracle_price,
        from_held,
        m1.from_target,
        cd.sell[from_id],
    );
    lemma_mul_div_range(fs.target_weight[to_index] as int, m1.worth, fs.weight_sum as int);
    lemma_mul_div_range(
        mul_div_spec(fs.target_weight[to_index] as int, m1.worth, fs.weight_sum as int),
        pow10(to_d) as int,
        to.oracle_price.avg_price as int,
    );
    lemma_bought_amount_monotone(
        m1.value,
        m2.value,
        to,
        to.oracle_price,
        to_held,
        m1.to_target,
        cd.buy[to_id],
    );
    let sell = from.oracle_price.sell_price as int;
    let buy = to.oracle_price.buy_price as int;
    lemma_mul_div_monotone(smaller, larger, sell, pow10(from_d) as int);
    lemma_mul_div_range(smaller, sell, pow10(from_d) as int);
    lemma_mul_div_monotone(
        amount_to_usd_spec(smaller, from_d, sell),
        amount_to_usd_spec(larger, from_d, sell),
        pow10(to_d) as int,
        buy,
    );
}

/// Among the quotes that a fund gives and does not refuse, a larger input
/// gives no smaller output, where the fee of the bought token does not
/// depend on the side of its target.
pub proof fn lemma_quote_grows_with_input(
    fs: FundState,
    tl: TokenList,
    cd: CurveData,
    input_mint: Address,
    output_mint: Address,
    smaller: int,
    larger: int,
)
    requires
        0 <= smaller <= larger,
        quote_spec(fs, tl, cd, input_mint, smaller, output_mint) is Ok,
        quote_spec(fs, tl, cd, input_mint, larger, output_mint) is Ok,
        !quote_spec(fs, tl, cd, input_mint, smaller, output_mint).unwrap().not_enough_liquidity,
        !quote_spec(fs, tl, cd, input_mint, larger, output_mint).unwrap().not_enough_liquidity,
        ({
            let to_id = mint_position(tl, output_mint).unwrap();
            let to_index = holding_position(fs, to_id).unwrap();
            fee_is_one_sided(
                tl.list[to_id],
                fs.current_comp_amount[to_index] as int,
                bought_target(fs, tl, to_id, to_index),
            )
        }),
    ensures
        quote_spec(fs, tl, cd, input_mint, smaller, output_mint).unwrap().out_amount <= quote_spec(
            fs,
            tl,
            cd,
            input_mint,
            larger,
            output_mint,
        ).unwrap().out_amount,
{
    let from_id = mint_position(tl, input_mint).unwrap();
    let to_id = mint_position(tl, output_mint).unwrap();
    let from_index = holding_position(fs, from_id).unwrap();
    let to_index = holding_position(fs, to_id).unwrap();
    lemma_quote_monotone(fs, tl, cd, from_id, from_index, to_id, to_index, smaller, larger);
}

} // verus!
