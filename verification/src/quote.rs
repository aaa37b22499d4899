//! The quote engine: what a swap through a fund gives, what it costs, and
//! whether it keeps the fund's composition inside its weight band.

use crate::accounts::{CurveData, FundState, TokenList, TokenSettings};
use crate::address::Address;
use crate::amm::{QuoteFigures, QuoteParams};
use crate::curve::{bought_amount, sold_value};
use crate::error::AmmError;
use crate::fixed_point::{
    amount_to_usd_spec, lemma_mul_div_range, lemma_pow10_increases, mul_div_spec, pow10,
    usd_to_amount_spec, WEIGHT_MULTIPLIER,
};
use crate::symmetry_token_swap::SymmetryTokenSwap;
use vstd::prelude::*;

verus! {

/// Denominator of the allowed weight deviation: `10^8`.
pub const OFFSET_DIVIDER: u64 = 100_000_000;

/// Scale of the reported percentages: `10^6` stands for one.
pub const PERCENT_SCALE: u64 = 1_000_000;

/// A fund state and a catalog that fit together: neither exceeds its
/// capacity, and every token of the composition is a catalog entry in use.
pub open spec fn snapshot_valid(fs: FundState, tl: TokenList) -> bool {
    &&& fs.wf()
    &&& tl.wf()
    &&& forall|i: int|
        0 <= i < fs.num_of_tokens ==> (#[trigger] fs.current_comp_token[i]) < tl.num_tokens
}

/// The first catalog entry in use, from `k` on, whose mint is `mint`.
pub open spec fn mint_position_from(tl: TokenList, mint: Address, k: int) -> Option<int>
    decreases 100 - k,
{
    if k < 0 || k >= tl.num_tokens || k >= 100 {
        None
    } else if tl.list[k].token_mint == mint {
        Some(k)
    } else {
        mint_position_from(tl, mint, k + 1)
    }
}

/// The catalog position of `mint`: the first entry in use that carries it.
pub open spec fn mint_position(tl: TokenList, mint: Address) -> Option<int> {
    mint_position_from(tl, mint, 0)
}

/// The first slot of the composition, from `k` on, that holds token `id`.
pub open spec fn holding_position_from(fs: FundState, id: int, k: int) -> Option<int>
    decreases 20 - k,
{
    if k < 0 || k >= fs.num_of_tokens || k >= 20 {
        None
    } else if fs.current_comp_token[k] == id {
        Some(k)
    } else {
        holding_position_from(fs, id, k + 1)
    }
}

/// The slot of the composition that holds token `id`.
pub open spec fn holding_position(fs: FundState, id: int) -> Option<int> {
    holding_position_from(fs, id, 0)
}

/// The catalog entry of the token in slot `i` of the composition.
pub open spec fn holding_token(fs: FundState, tl: TokenList, i: int) -> TokenSettings {
    tl.list[fs.current_comp_token[i] as int]
}

/// Worth of slot `i` of the composition at the average price of its token.
pub open spec fn holding_worth(fs: FundState, tl: TokenList, i: int) -> int {
    let token = holding_token(fs, tl, i);
    amount_to_usd_spec(
        fs.current_comp_amount[i] as int,
        token.decimals as nat,
        token.oracle_price.avg_price as int,
    )
}

/// Worth of the first `k` slots of the composition.
pub open spec fn worth_of_first(fs: FundState, tl: TokenList, k: int) -> int
    decreases k,
{
    if k <= 0 {
        0
    } else {
        worth_of_first(fs, tl, k - 1) + holding_worth(fs, tl, k - 1)
    }
}

/// Worth of the fund: the sum of the worth of every slot of its composition.
pub open spec fn fund_worth_spec(fs: FundState, tl: TokenList) -> int {
    worth_of_first(fs, tl, fs.num_of_tokens as int)
}

/// Every token of the composition has a live oracle.
pub open spec fn all_live(fs: FundState, tl: TokenList) -> bool {
    forall|i: int|
        0 <= i < fs.num_of_tokens ==> (#[trigger] holding_token(
            fs,
            tl,
            i,
        )).oracle_price.oracle_live != 0
}

/// Units of `token` that the fund aims to hold in slot `index` when it is worth `worth`.
pub open spec fn target_amount_spec(
    fs: FundState,
    token: TokenSettings,
    worth: int,
    index: int,
) -> int {
    usd_to_amount_spec(
        mul_div_spec(fs.target_weight[index] as int, worth, fs.weight_sum as int),
        token.decimals as nat,
        token.oracle_price.avg_price as int,
    )
}

/// Units of the `to` token that `amount` units of the `from` token are worth
/// at the given prices, before any curve or fee.
pub open spec fn converted_amount(
    amount: int,
    from_decimals: nat,
    from_price: int,
    to_decimals: nat,
    to_price: int,
) -> int {
    usd_to_amount_spec(
        amount_to_usd_spec(amount, from_decimals, from_price),
        to_decimals,
        to_price,
    )
}

/// The part of `total` that a share of `percent` out of 100 receives.
pub open spec fn fee_share(total: int, percent: int) -> int {
    mul_div_spec(total, percent, 100)
}

/// The fee of a swap, divided among its four beneficiaries.
#[derive(Clone, Copy, Debug, PartialEq, Eq)]
pub struct FeeSplit {
    pub symmetry: u64,
    pub host: u64,
    pub manager: u64,
    pub fund: u64,
}

/// Every number that enters a quote, as a mathematical integer.
pub struct SwapMath {
    pub worth: int,
    pub from_target: int,
    pub to_target: int,
    pub value: int,
    pub walked: int,
    pub fair: int,
    pub amount_without_fees: int,
    pub out: int,
    pub total_fees: int,
    pub symmetry_fee: int,
    pub host_fee: int,
    pub manager_fee: int,
    pub fund_fee: int,
    pub impact_bps: int,
    pub fee_bps: int,
    pub from_before: int,
    pub to_before: int,
    pub from_after: int,
    pub to_after: int,
    pub worth_after: int,
    pub from_weight: int,
    pub to_weight: int,
    pub allowed_offset: int,
    pub allowed_from: int,
    pub allowed_to: int,
    pub removing_dust: bool,
}

/// The smaller of two integers.
pub open spec fn min_int(a: int, b: int) -> int {
    if a <= b {
        a
    } else {
        b
    }
}

/// The numbers of a swap of `in_amount` units of catalog token `from_id`,
/// held in slot `from_index`, for catalog token `to_id`, held in slot `to_index`.
pub open spec fn swap_math(
    fs: FundState,
    tl: TokenList,
    cd: CurveData,
    from_id: int,
    from_index: int,
    to_id: int,
    to_index: int,
    in_amount: int,
) -> SwapMath {
    let from = tl.list[from_id];
    let to = tl.list[to_id];
    let from_d = from.decimals as nat;
    let to_d = to.decimals as nat;
    let from_held = fs.current_comp_amount[from_index] as int;
    let to_held = fs.current_comp_amount[to_index] as int;
    let worth = fund_worth_spec(fs, tl);
    let from_target = target_amount_spec(fs, from, worth, from_index);
    let to_target = target_amount_spec(fs, to, worth, to_index);
    let value = sold_value(
        in_amount,
        from,
        from.oracle_price,
        from_held,
        from_target,
        cd.sell[from_id],
    );
    let walked = bought_amount(value, to, to.oracle_price, to_held, to_target, cd.buy[to_id]);
    let fair = converted_amount(
        in_amount,
        from_d,
        from.oracle_price.avg_price as int,
        to_d,
        to.oracle_price.avg_price as int,
    );
    let amount_without_fees = min_int(
        converted_amount(
            in_amount,
            from_d,
            from.oracle_price.sell_price as int,
            to_d,
            to.oracle_price.buy_price as int,
        ),
        to_held,
    );
    let out = min_int(walked, amount_without_fees);
    let total_fees = amount_without_fees - out;
    let symmetry_fee = fee_share(total_fees, tl.list[0].symmetry_share());
    let host_fee = fee_share(total_fees, tl.list[0].host_share());
    let manager_fee = fee_share(total_fees, tl.list[0].manager_share());
    let fund_fee = total_fees - symmetry_fee - host_fee - manager_fee;
    let from_avg = from.oracle_price.avg_price as int;
    let to_avg = to.oracle_price.avg_price as int;
    let from_before = amount_to_usd_spec(from_held, from_d, from_avg);
    let to_before = amount_to_usd_spec(to_held, to_d, to_avg);
    let from_after = amount_to_usd_spec(from_held + in_amount, from_d, from_avg);
    let to_after = amount_to_usd_spec(to_held - (amount_without_fees - fund_fee), to_d, to_avg);
    let worth_after = worth - from_before - to_before + from_after + to_after;
    let allowed_offset = fs.rebalance_threshold * fs.lp_offset_threshold;
    SwapMath {
        worth,
        from_target,
        to_target,
        value,
        walked,
        fair,
        amount_without_fees,
        out,
        total_fees,
        symmetry_fee,
        host_fee,
        manager_fee,
        fund_fee,
        impact_bps: mul_div_spec(fair - amount_without_fees, 1_000_000, fair),
        fee_bps: mul_div_spec(total_fees, 1_000_000, fair),
        from_before,
        to_before,
        from_after,
        to_after,
        worth_after,
        from_weight: mul_div_spec(from_after, 10000, worth_after),
        to_weight: mul_div_spec(to_after, 10000, worth_after),
        allowed_offset,
        allowed_from: min_int(
            mul_div_spec(
                fs.target_weight[from_index] as int,
                100_000_000 + allowed_offset,
                100_000_000,
            ),
            10000,
        ),
        allowed_to: mul_div_spec(
            fs.target_weight[to_index] as int,
            100_000_000 - allowed_offset,
            100_000_000,
        ),
        removing_dust: from_id == 0 && fs.target_weight[to_index] == 0,
    }
}

/// Some exact number of the swap leaves the range in which it is kept:
/// a hard failure.
pub open spec fn swap_overflows(m: SwapMath, from_held: int, in_amount: int) -> bool {
    ||| m.value > u64::MAX
    ||| m.walked > u64::MAX
    ||| m.fund_fee < 0
    ||| m.amount_without_fees > m.fair
    ||| m.impact_bps > i64::MAX
    ||| m.fee_bps > i64::MAX
    ||| from_held + in_amount > u64::MAX
    ||| m.worth - m.from_before - m.to_before < 0
    ||| m.worth_after > u64::MAX
    ||| m.allowed_offset > 100_000_000
}

/// The swap would leave a weight outside its band: the sold token above
/// its allowed weight, unless dust is being removed, or the bought token
/// below its allowed weight.
pub open spec fn swap_rejected(m: SwapMath) -> bool {
    (m.from_weight > m.allowed_from && !m.removing_dust) || m.to_weight < m.allowed_to
}

/// The integers of a quote.
pub struct QuoteModel {
    pub in_amount: int,
    pub out_amount: int,
    pub fee_amount: int,
    pub fee_bps: int,
    pub price_impact_bps: int,
    pub not_enough_liquidity: bool,
}

/// The quote for a swap between two resolved tokens of a fund whose oracles
/// are live and whose worth is known.
pub open spec fn priced_quote(
    fs: FundState,
    tl: TokenList,
    cd: CurveData,
    from_id: int,
    from_index: int,
    to_id: int,
    to_index: int,
    in_amount: int,
) -> Result<QuoteModel, AmmError> {
    let m = swap_math(fs, tl, cd, from_id, from_index, to_id, to_index, in_amount);
    if swap_overflows(m, fs.current_comp_amount[from_index] as int, in_amount) {
        Err(AmmError::ArithmeticOverflow)
    } else if swap_rejected(m) {
        Ok(
            QuoteModel {
                in_amount,
                out_amount: 0,
                fee_amount: 0,
                fee_bps: 0,
                price_impact_bps: 0,
                not_enough_liquidity: true,
            },
        )
    } else {
        Ok(
            QuoteModel {
                in_amount,
                out_amount: m.out,
                fee_amount: m.total_fees,
                fee_bps: m.fee_bps,
                price_impact_bps: m.impact_bps,
                not_enough_liquidity: false,
            },
        )
    }
}

/// The quote that a fund gives for a request, or the reason why it gives none.
///
/// Both mints must be catalog entries in use, and both tokens must be held
/// by the fund; every oracle of the composition must be live; the worth of
/// the fund must fit 64 bits. Only then is the swap priced.
pub open spec fn quote_spec(
    fs: FundState,
    tl: TokenList,
    cd: CurveData,
    input_mint: Address,
    in_amount: int,
    output_mint: Address,
) -> Result<QuoteModel, AmmError> {
    match (mint_position(tl, input_mint), mint_position(tl, output_mint)) {
        (Some(from_id), Some(to_id)) => match (
            holding_position(fs, from_id),
            holding_position(fs, to_id),
        ) {
            (Some(from_index), Some(to_index)) => if !all_live(fs, tl) {
                Err(AmmError::OracleNotLive)
            } else if fund_worth_spec(fs, tl) > u64::MAX {
                Err(AmmError::ArithmeticOverflow)
            } else {
                priced_quote(fs, tl, cd, from_id, from_index, to_id, to_index, in_amount)
            },
            _ => Err(AmmError::UnresolvableMint),
        },
        _ => Err(AmmError::UnresolvableMint),
    }
}

/// Both mints are catalog entries in use, and both tokens are held by the fund.
pub open spec fn mints_resolve(
    fs: FundState,
    tl: TokenList,
    input_mint: Address,
    output_mint: Address,
) -> bool {
    match (mint_position(tl, input_mint), mint_position(tl, output_mint)) {
        (Some(from_id), Some(to_id)) => holding_position(fs, from_id) is Some
            && holding_position(fs, to_id) is Some,
        _ => false,
    }
}

impl QuoteFigures {
    /// The figures are those of the model.
    pub open spec fn matches(self, m: QuoteModel) -> bool {
        &&& self.in_amount == m.in_amount
        &&& self.out_amount == m.out_amount
        &&& self.fee_amount == m.fee_amount
        &&& self.fee_bps == m.fee_bps
        &&& self.price_impact_bps == m.price_impact_bps
        &&& self.not_enough_liquidity == m.not_enough_liquidity
    }
}

/// A position found by the catalog search is in use, carries the mint, and
/// is the first to do so; no position is found only where no entry in use
/// carries the mint.
pub proof fn lemma_mint_position(tl: TokenList, mint: Address, k: int)
    requires
        0 <= k,
    ensures
        match mint_position_from(tl, mint, k) {
            Some(i) => k <= i < tl.num_tokens && i < 100 && tl.list[i].token_mint == mint
                && forall|j: int| k <= j < i ==> (#[trigger] tl.list[j]).token_mint != mint,
            None => forall|j: int|
                k <= j < tl.num_tokens && j < 100 ==> (#[trigger] tl.list[j]).token_mint != mint,
        },
    decreases 100 - k,
{
    if k >= tl.num_tokens || k >= 100 {
    } else if tl.list[k].token_mint == mint {
    } else {
        lemma_mint_position(tl, mint, k + 1);
    }
}

/// A slot found by the composition search is in use, holds the token, and
/// is the first to do so; no slot is found only where none in use holds it.
pub proof fn lemma_holding_position(fs: FundState, id: int, k: int)
    requires
        0 <= k,
    ensures
        match holding_position_from(fs, id, k) {
            Some(i) => k <= i < fs.num_of_tokens && i < 20 && fs.current_comp_token[i] == id
                && forall|j: int| k <= j < i ==> (#[trigger] fs.current_comp_token[j]) != id,
            None => forall|j: int|
                k <= j < fs.num_of_tokens && j < 20 ==> (#[trigger] fs.current_comp_token[j])
                    != id,
        },
    decreases 20 - k,
{
    if k >= fs.num_of_tokens || k >= 20 {
    } else if fs.current_comp_token[k] == id {
    } else {
        lemma_holding_position(fs, id, k + 1);
    }
}

/// The worth of any number of slots is between nothing and that number of
/// 64-bit quantities.
pub proof fn lemma_worth_of_first_range(fs: FundState, tl: TokenList, k: int)
    requires
        0 <= k,
    ensures
        0 <= worth_of_first(fs, tl, k) <= k * u64::MAX,
    decreases k,
{
    if k > 0 {
        lemma_worth_of_first_range(fs, tl, k - 1);
        let token = holding_token(fs, tl, k - 1);
        lemma_pow10_increases(0, token.decimals as nat);
        lemma_mul_div_range(
            fs.current_comp_amount[k - 1] as int,
            token.oracle_price.avg_price as int,
            pow10(token.decimals as nat) as int,
        );
    }
}

/// Finds the catalog position of `mint`.
pub fn find_mint(tl: &TokenList, mint: &Address) -> (r: Option<usize>)
    ensures
        match r {
            Some(i) => mint_position(*tl, *mint) == Some(i as int) && i < tl.num_tokens && i
                < 100,
            None => mint_position(*tl, *mint) is None,
        },
{
    let count: usize = if tl.num_tokens > 100 {
        100
    } else {
        tl.num_tokens as usize
    };
    let mut i: usize = 0;
    while i < count
        invariant
            i <= count <= 100,
            count == tl.num_tokens || (count == 100 && tl.num_tokens > 100),
            mint_position(*tl, *mint) == mint_position_from(*tl, *mint, i as int),
        decreases count - i,
    {
        if tl.list[i].token_mint.equals(mint) {
            return Some(i);
        }
        i += 1;
    }
    None
}

/// Finds the slot of the composition that holds catalog token `id`.
pub fn find_holding(fs: &FundState, id: u64) -> (r: Option<usize>)
    ensures
        match r {
            Some(i) => holding_position(*fs, id as int) == Some(i as int) && i
                < fs.num_of_tokens && i < 20,
            None => holding_position(*fs, id as int) is None,
        },
{
    let count: usize = if fs.num_of_tokens > 20 {
        20
    } else {
        fs.num_of_tokens as usize
    };
    let mut i: usize = 0;
    while i < count
        invariant
            i <= count <= 20,
            count == fs.num_of_tokens || (count == 20 && fs.num_of_tokens > 20),
            holding_position(*fs, id as int) == holding_position_from(*fs, id as int, i as int),
        decreases count - i,
    {
        if fs.current_comp_token[i] == id {
            return Some(i);
        }
        i += 1;
    }
    None
}

/// The worth of a fund in canonical USD units.
///
/// Fails with `OracleNotLive` where a token of the composition has no live
/// oracle; otherwise with `ArithmeticOverflow` where the worth exceeds the
/// 64-bit range.
pub(crate) fn fund_worth(fs: &FundState, tl: &TokenList) -> (r: Result<u64, AmmError>)
    requires
        snapshot_valid(*fs, *tl),
    ensures
        match r {
            Ok(w) => all_live(*fs, *tl) && w == fund_worth_spec(*fs, *tl),
            Err(e) => if !all_live(*fs, *tl) {
                e == AmmError::OracleNotLive
            } else {
                e == AmmError::ArithmeticOverflow && fund_worth_spec(*fs, *tl) > u64::MAX
            },
        },
{
    let count = fs.num_of_tokens as usize;
    let mut worth: u128 = 0;
    let mut live = true;
    let mut i: usize = 0;
    while i < count
        invariant
            i <= count,
            count == fs.num_of_tokens,
            snapshot_valid(*fs, *tl),
            worth == worth_of_first(*fs, *tl, i as int),
            live == (forall|j: int|
                0 <= j < i ==> (#[trigger] holding_token(*fs, *tl, j)).oracle_price.oracle_live
                    != 0),
        decreases count - i,
    {
        let id = fs.current_comp_token[i];
        assert(id < tl.num_tokens);
        let token = tl.list[id as usize];
        assert(token == holding_token(*fs, *tl, i as int));
        if token.oracle_price.oracle_live == 0 {
            live = false;
        }
        proof {
            lemma_worth_of_first_range(*fs, *tl, i as int);
            lemma_worth_of_first_range(*fs, *tl, i + 1);
        }
        worth = worth + SymmetryTokenSwap::amount_to_usd_value(
            fs.current_comp_amount[i],
            token.decimals,
            token.oracle_price.avg_price,
        ) as u128;
        i += 1;
    }
    if !live {
        Err(AmmError::OracleNotLive)
    } else if worth > u64::MAX as u128 {
        Err(AmmError::ArithmeticOverflow)
    } else {
        Ok(worth as u64)
    }
}

/// Divides the fee of a swap among the protocol, the host, the manager and
/// the fund. Each of the first three receives its share out of 100, rounded
/// down; the fund receives what is left, so that nothing is lost.
///
/// Fails with `ArithmeticOverflow` exactly where the three shares together
/// exceed the fee.
pub fn split_fee(total_fees: u64, symmetry_bps: u8, host_bps: u8, manager_bps: u8) -> (r: Result<
    FeeSplit,
    AmmError,
>)
    ensures
        match r {
            Ok(s) => {
                &&& s.symmetry == fee_share(total_fees as int, symmetry_bps as int)
                &&& s.host == fee_share(total_fees as int, host_bps as int)
                &&& s.manager == fee_share(total_fees as int, manager_bps as int)
                &&& s.symmetry + s.host + s.manager + s.fund == total_fees
            },
            Err(e) => e == AmmError::ArithmeticOverflow && fee_share(
                total_fees as int,
                symmetry_bps as int,
            ) + fee_share(total_fees as int, host_bps as int) + fee_share(
                total_fees as int,
                manager_bps as int,
            ) > total_fees,
        },
{
    let symmetry = SymmetryTokenSwap::mul_div(total_fees, symmetry_bps as u64, 100);
    let host = SymmetryTokenSwap::mul_div(total_fees, host_bps as u64, 100);
    let manager = SymmetryTokenSwap::mul_div(total_fees, manager_bps as u64, 100);
    let shares: u128 = symmetry as u128 + host as u128 + manager as u128;
    if shares > total_fees as u128 {
        return Err(AmmError::ArithmeticOverflow);
    }
    Ok(FeeSplit { symmetry, host, manager, fund: total_fees - symmetry - host - manager })
}

/// Units of `token` that the fund aims to hold in slot `index` when it is worth `worth`.
fn target_amount(fs: &FundState, token: &TokenSettings, worth: u64, index: usize) -> (r: u64)
    requires
        index < 20,
    ensures
        r == target_amount_spec(*fs, *token, worth as int, index as int),
{
    SymmetryTokenSwap::usd_value_to_amount(
        SymmetryTokenSwap::mul_div(fs.target_weight[index], worth, fs.weight_sum),
        token.decimals,
        token.oracle_price.avg_price,
    )
}

/// Units of the `to` token that `amount` units of the `from` token are worth.
fn convert_amount(
    amount: u64,
    from_decimals: u8,
    from_price: u64,
    to_decimals: u8,
    to_price: u64,
) -> (r: u64)
    ensures
        r == converted_amount(
            amount as int,
            from_decimals as nat,
            from_price as int,
            to_decimals as nat,
            to_price as int,
        ),
{
    SymmetryTokenSwap::usd_value_to_amount(
        SymmetryTokenSwap::amount_to_usd_value(amount, from_decimals, from_price),
        to_decimals,
        to_price,
    )
}

/// Prices a swap between two resolved tokens of a fund of known worth.
fn price_swap(
    fs: &FundState,
    tl: &TokenList,
    cd: &CurveData,
    from_id: usize,
    from_index: usize,
    to_id: usize,
    to_index: usize,
    in_amount: u64,
    worth: u64,
) -> (r: Result<QuoteFigures, AmmError>)
    requires
        from_id < 100,
        to_id < 100,
        from_index < 20,
        to_index < 20,
        worth == fund_worth_spec(*fs, *tl),
    ensures
        match (
            r,
            priced_quote(
                *fs,
                *tl,
                *cd,
                from_id as int,
                from_index as int,
                to_id as int,
                to_index as int,
                in_amount as int,
            ),
        ) {
            (Ok(figures), Ok(model)) => figures.matches(model),
            (Err(e), Err(f)) => e == f,
            _ => false,
        },
{
    let ghost m = swap_math(
        *fs,
        *tl,
        *cd,
        from_id as int,
        from_index as int,
        to_id as int,
        to_index as int,
        in_amount as int,
    );
    let from = tl.list[from_id];
    let to = tl.list[to_id];
    let from_held = fs.current_comp_amount[from_index];
    let to_held = fs.current_comp_amount[to_index];
    let from_target = target_amount(fs, &from, worth, from_index);
    let to_target = target_amount(fs, &to, worth, to_index);
    let value = SymmetryTokenSwap::compute_value_of_sold_token(
        in_amount,
        from,
        from.oracle_price,
        from_held,
        from_target,
        cd.sell[from_id],
    )?;
    let walked = SymmetryTokenSwap::compute_amount_of_bought_token(
        value,
        to,
        to.oracle_price,
        to_held,
        to_target,
        cd.buy[to_id],
    )?;
    let mut amount_without_fees = convert_amount(
        in_amount,
        from.decimals,
        from.oracle_price.sell_price,
        to.decimals,
        to.oracle_price.buy_price,
    );
    let fair = convert_amount(
        in_amount,
        from.decimals,
        from.oracle_price.avg_price,
        to.decimals,
        to.oracle_price.avg_price,
    );
    if amount_without_fees > to_held {
        amount_without_fees = to_held;
    }
    let out = if walked > amount_without_fees {
        amount_without_fees
    } else {
        walked
    };
    let total_fees = amount_without_fees - out;
    let head = tl.list[0];
    let split = split_fee(
        total_fees,
        head.additional_data[60],
        head.additional_data[61],
        head.additional_data[62],
    )?;
    assert(split.fund == m.fund_fee);
    if amount_without_fees > fair {
        return Err(AmmError::ArithmeticOverflow);
    }
    let impact_bps = SymmetryTokenSwap::mul_div(fair - amount_without_fees, PERCENT_SCALE, fair);
    let fee_bps = SymmetryTokenSwap::mul_div(total_fees, PERCENT_SCALE, fair);
    if impact_bps > i64::MAX as u64 || fee_bps > i64::MAX as u64 {
        return Err(AmmError::ArithmeticOverflow);
    }
    let from_sum = match from_held.checked_add(in_amount) {
        Some(x) => x,
        None => {
            return Err(AmmError::ArithmeticOverflow);
        },
    };
    let from_avg = from.oracle_price.avg_price;
    let to_avg = to.oracle_price.avg_price;
    let from_before = SymmetryTokenSwap::amount_to_usd_value(from_held, from.decimals, from_avg);
    let to_before = SymmetryTokenSwap::amount_to_usd_value(to_held, to.decimals, to_avg);
    let from_after = SymmetryTokenSwap::amount_to_usd_value(from_sum, from.decimals, from_avg);
    let to_after = SymmetryTokenSwap::amount_to_usd_value(
        to_held - (amount_without_fees - split.fund),
        to.decimals,
        to_avg,
    );
    if (worth as u128) < from_before as u128 + to_before as u128 {
        return Err(AmmError::ArithmeticOverflow);
    }
    let worth_after: u128 = (worth - from_before - to_before) as u128 + from_after as u128
        + to_after as u128;
    if worth_after > u64::MAX as u128 {
        return Err(AmmError::ArithmeticOverflow);
    }
    let worth_after = worth_after as u64;
    let from_weight = SymmetryTokenSwap::mul_div(from_after, WEIGHT_MULTIPLIER, worth_after);
    let to_weight = SymmetryTokenSwap::mul_div(to_after, WEIGHT_MULTIPLIER, worth_after);
    assert(fs.rebalance_threshold * fs.lp_offset_threshold >= 0) by (nonlinear_arith);
    let allowed_offset = match fs.rebalance_threshold.checked_mul(fs.lp_offset_threshold) {
        Some(x) => x,
        None => {
            return Err(AmmError::ArithmeticOverflow);
        },
    };
    if allowed_offset > OFFSET_DIVIDER {
        return Err(AmmError::ArithmeticOverflow);
    }
    let mut allowed_from = SymmetryTokenSwap::mul_div(
        fs.target_weight[from_index],
        OFFSET_DIVIDER + allowed_offset,
        OFFSET_DIVIDER,
    );
    let allowed_to = SymmetryTokenSwap::mul_div(
        fs.target_weight[to_index],
        OFFSET_DIVIDER - allowed_offset,
        OFFSET_DIVIDER,
    );
    if allowed_from > WEIGHT_MULTIPLIER {
        allowed_from = WEIGHT_MULTIPLIER;
    }
    let removing_dust = from_id == 0 && fs.target_weight[to_index] == 0;
    assert(!swap_overflows(m, from_held as int, in_amount as int));
    if (from_weight > allowed_from && !removing_dust) || to_weight < allowed_to {
        return Ok(
            QuoteFigures {
                in_amount,
                out_amount: 0,
                fee_amount: 0,
                fee_bps: 0,
                price_impact_bps: 0,
                not_enough_liquidity: true,
            },
        );
    }
    Ok(
        QuoteFigures {
            in_amount,
            out_amount: out,
            fee_amount: total_fees,
            fee_bps: fee_bps as i64,
            price_impact_bps: impact_bps as i64,
            not_enough_liquidity: false,
        },
    )
}

/// Quotes a swap against a snapshot of a fund.
pub(crate) fn quote_figures(
    fs: &FundState,
    tl: &TokenList,
    cd: &CurveData,
    params: &QuoteParams,
) -> (r: Result<QuoteFigures, AmmError>)
    requires
        snapshot_valid(*fs, *tl),
    ensures
        match (
            r,
            quote_spec(
                *fs,
                *tl,
                *cd,
                params.input_mint,
                params.in_amount as int,
                params.output_mint,
            ),
        ) {
            (Ok(figures), Ok(model)) => figures.matches(model),
            (Err(e), Err(f)) => e == f,
            _ => false,
        },
{
    let from_id = match find_mint(tl, &params.input_mint) {
        Some(i) => i,
        None => {
            return Err(AmmError::UnresolvableMint);
        },
    };
    let to_id = match find_mint(tl, &params.output_mint) {
        Some(i) => i,
        None => {
            return Err(AmmError::UnresolvableMint);
        },
    };
    let from_index = match find_holding(fs, from_id as u64) {
        Some(i) => i,
        None => {
            return Err(AmmError::UnresolvableMint);
        },
    };
    let to_index = match find_holding(fs, to_id as u64) {
        Some(i) => i,
        None => {
            return Err(AmmError::UnresolvableMint);
        },
    };
    let worth = fund_worth(fs, tl)?;
    price_swap(fs, tl, cd, from_id, from_index, to_id, to_index, params.in_amount, worth)
}

} // verus!
