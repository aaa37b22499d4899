//! The adapter: a snapshot of one fund, its catalog and the curve dataset,
//! and the operations that a swap aggregator asks of a venue.

use crate::accounts::{CurveData, FundState, OraclePrice, TokenList, TokenSettings, LP_DISABLED};
use crate::address::Address;
use crate::amm::{
    decimal_of, AccountMeta, Clock, KeyedAccount, Quote, QuoteFigures, QuoteParams, Swap,
    SwapInstruction, SwapLeg, SwapLegAndAccountMetas, SwapParams,
};
use crate::error::AmmError;
use crate::fixed_point::{
    amount_to_usd_spec, mul_div_pow10, mul_div_spec, mul_pow10_div, usd_to_amount_spec,
};
use crate::instruction::{
    associated_token_address, derive_associated_token_address, lemma_oracle_accounts_len,
    swap_account_metas, swap_accounts_spec, swap_instruction_data, swap_payload, FeeAccounts,
};
use crate::oracle::oracle_price_spec;
use crate::quote::{
    all_live, find_mint, fund_worth, fund_worth_spec, holding_token, mint_position, quote_figures,
    quote_spec, snapshot_valid, QuoteModel,
};
use crate::wire::u64_at;
use vstd::prelude::*;

verus! {

/// A swap venue backed by one fund.
#[derive(Clone, Copy, Debug)]
pub struct SymmetryTokenSwap {
    key: Address,
    fund_state: FundState,
    token_list: TokenList,
    curve_data: CurveData,
}

/// What an adapter holds: the fund's address and the three records that
/// were last installed.
pub struct Snapshot {
    pub key: Address,
    pub fund_state: FundState,
    pub token_list: TokenList,
    pub curve_data: CurveData,
}

impl View for SymmetryTokenSwap {
    type V = Snapshot;

    closed spec fn view(&self) -> Snapshot {
        Snapshot {
            key: self.key,
            fund_state: self.fund_state,
            token_list: self.token_list,
            curve_data: self.curve_data,
        }
    }
}

/// The payload that `accounts` holds for `key`, searched from position `k`
/// on: that of the first entry with this key.
pub open spec fn account_data_from(accounts: Seq<KeyedAccount>, key: Address, k: int) -> Option<
    Seq<u8>,
>
    decreases accounts.len() - k,
{
    if k < 0 || k >= accounts.len() {
        None
    } else if accounts[k].key == key {
        Some(accounts[k].data@)
    } else {
        account_data_from(accounts, key, k + 1)
    }
}

/// The payload that `accounts` holds for `key`.
pub open spec fn account_data(accounts: Seq<KeyedAccount>, key: Address) -> Option<Seq<u8>> {
    account_data_from(accounts, key, 0)
}

/// Every token that the fund state payload `fund` lists in its composition
/// is one of the first `num_tokens` catalog entries.
pub open spec fn composition_in_catalog(fund: Seq<u8>, num_tokens: int) -> bool {
    forall|i: int|
        0 <= i < u64_at(fund, 168) && i < 20 ==> #[trigger] u64_at(fund, 176 + 8 * i) < num_tokens
}

/// Why no adapter can be made of the two payloads, if none can.
pub open spec fn creation_error(fund: Seq<u8>, catalog: Seq<u8>) -> Option<AmmError> {
    match FundState::decode_error(fund) {
        Some(e) => Some(e),
        None => match TokenList::decode_error(catalog) {
            Some(e) => Some(e),
            None => if composition_in_catalog(fund, u64_at(catalog, 8) as int) {
                None
            } else {
                Some(AmmError::NumericConversion)
            },
        },
    }
}

/// The price of catalog entry `i` after a refresh: the old one where the
/// entry names no oracle, else what the oracle's payload gives.
pub open spec fn refreshed_price(
    tl: TokenList,
    accounts: Seq<KeyedAccount>,
    clock: Clock,
    i: int,
) -> Result<OraclePrice, AmmError> {
    let entry = tl.list[i];
    if entry.oracle_account.is_default() {
        Ok(entry.oracle_price)
    } else {
        match account_data(accounts, entry.oracle_account) {
            None => Err(AmmError::MissingAccount),
            Some(data) => oracle_price_spec(data, entry, clock),
        }
    }
}

/// The failure of the first catalog entry, from `k` on, whose price cannot
/// be refreshed.
pub open spec fn first_price_error_from(
    tl: TokenList,
    accounts: Seq<KeyedAccount>,
    clock: Clock,
    k: int,
) -> Option<AmmError>
    decreases 100 - k,
{
    if k < 0 || k >= 100 {
        None
    } else {
        match refreshed_price(tl, accounts, clock, k) {
            Err(e) => Some(e),
            Ok(_) => first_price_error_from(tl, accounts, clock, k + 1),
        }
    }
}

/// Why a refresh fails, if it does.
///
/// The curve dataset is looked up and decoded first, then the fund state,
/// whose composition must lie in the catalog, then the oracle of each
/// catalog entry in turn. The first failure is the one reported.
pub open spec fn update_error(old: Snapshot, accounts: Seq<KeyedAccount>, clock: Clock) -> Option<
    AmmError,
> {
    match account_data(accounts, Address::curve_data()) {
        None => Some(AmmError::MissingAccount),
        Some(curve) => match CurveData::decode_error(curve) {
            Some(e) => Some(e),
            None => match account_data(accounts, old.key) {
                None => Some(AmmError::MissingAccount),
                Some(fund) => match FundState::decode_error(fund) {
                    Some(e) => Some(e),
                    None => if !composition_in_catalog(fund, old.token_list.num_tokens as int) {
                        Some(AmmError::NumericConversion)
                    } else {
                        first_price_error_from(old.token_list, accounts, clock, 0)
                    },
                },
            },
        },
    }
}

/// Catalog entry `new` is `old` with the price `price`.
pub open spec fn repriced(old: TokenSettings, new: TokenSettings, price: OraclePrice) -> bool {
    new == (TokenSettings { oracle_price: price, ..old })
}

/// Catalog entry `new` is entry `i` of `tl` with its price refreshed.
pub open spec fn entry_refreshed(
    tl: TokenList,
    accounts: Seq<KeyedAccount>,
    clock: Clock,
    i: int,
    new: TokenSettings,
) -> bool {
    match refreshed_price(tl, accounts, clock, i) {
        Ok(price) => repriced(tl.list[i], new, price),
        Err(_) => false,
    }
}

/// What a successful refresh installs: the decoded curve dataset, the
/// decoded fund state, and the old catalog with every price refreshed.
pub open spec fn updated(
    old: Snapshot,
    new: Snapshot,
    accounts: Seq<KeyedAccount>,
    clock: Clock,
) -> bool {
    &&& new.key == old.key
    &&& account_data(accounts, Address::curve_data()) matches Some(curve)
    &&& new.curve_data.decoded_from(curve)
    &&& account_data(accounts, old.key) matches Some(fund)
    &&& new.fund_state.decoded_from(fund)
    &&& new.token_list.num_tokens == old.token_list.num_tokens
    &&& forall|i: int|
        0 <= i < 100 ==> entry_refreshed(
            old.token_list,
            accounts,
            clock,
            i,
            #[trigger] new.token_list.list[i],
        )
}

/// The mints of the tokens in the first `k` slots of the composition whose
/// liquidity flag is not disabled, in the order of the slots.
pub open spec fn reserve_mints_of_first(fs: FundState, tl: TokenList, k: int) -> Seq<Address>
    decreases k,
{
    if k <= 0 {
        Seq::empty()
    } else {
        let before = reserve_mints_of_first(fs, tl, k - 1);
        let token = holding_token(fs, tl, k - 1);
        if token.lp_on != LP_DISABLED {
            before.push(token.token_mint)
        } else {
            before
        }
    }
}

/// The oracle accounts that the first `k` catalog entries name, in order.
pub open spec fn oracles_of_first(tl: TokenList, k: int) -> Seq<Address>
    decreases k,
{
    if k <= 0 {
        Seq::empty()
    } else {
        let before = oracles_of_first(tl, k - 1);
        let oracle = tl.list[k - 1].oracle_account;
        if oracle.is_default() {
            before
        } else {
            before.push(oracle)
        }
    }
}

/// The accounts to fetch before a refresh: the curve dataset, the fund
/// state, and every oracle that the catalog names.
pub open spec fn accounts_to_update_spec(key: Address, tl: TokenList) -> Seq<Address> {
    seq![Address::curve_data(), key] + oracles_of_first(tl, 100)
}

impl Quote {
    /// The quote shows the numbers of `m`, its percentages as decimals of
    /// four fractional digits, and names `fee_mint` as the mint of its fee.
    pub open spec fn presents(self, m: QuoteModel, fee_mint: Address) -> bool {
        &&& self.in_amount == m.in_amount
        &&& self.out_amount == m.out_amount
        &&& self.fee_amount == m.fee_amount
        &&& self.fee_mint == fee_mint
        &&& self.fee_pct == decimal_of(m.fee_bps, 4)
        &&& self.price_impact_pct == decimal_of(m.price_impact_bps, 4)
        &&& self.not_enough_liquidity == m.not_enough_liquidity
    }
}

/// The three fee accounts are the associated token accounts, for `mint`, of
/// the protocol's fee recipient, of the fund's host and of its manager.
pub open spec fn fee_accounts_derived(fs: FundState, mint: Address, fees: FeeAccounts) -> bool {
    &&& associated_token_address(Address::swap_fee_recipient(), mint) == Some(fees.swap_fee@)
    &&& associated_token_address(fs.host_pubkey, mint) == Some(fees.host_fee@)
    &&& associated_token_address(fs.manager, mint) == Some(fees.manager_fee@)
}

/// Why a swap cannot be planned, if it cannot: a mint is no catalog entry
/// in use, or one of the three fee accounts has no address.
pub open spec fn swap_plan_error(snapshot: Snapshot, params: SwapParams) -> Option<AmmError> {
    if mint_position(snapshot.token_list, params.source_mint) is None || mint_position(
        snapshot.token_list,
        params.destination_mint,
    ) is None {
        Some(AmmError::UnresolvableMint)
    } else if associated_token_address(Address::swap_fee_recipient(), params.destination_mint)
        is None || associated_token_address(
        snapshot.fund_state.host_pubkey,
        params.destination_mint,
    ) is None || associated_token_address(snapshot.fund_state.manager, params.destination_mint)
        is None {
        Some(AmmError::AddressDerivation)
    } else {
        None
    }
}

/// The account list `metas` is the one of the swap that `params` asks for.
pub open spec fn swap_planned(
    snapshot: Snapshot,
    params: SwapParams,
    metas: Seq<AccountMeta>,
) -> bool {
    &&& mint_position(snapshot.token_list, params.source_mint) matches Some(from_id)
    &&& mint_position(snapshot.token_list, params.destination_mint) matches Some(to_id)
    &&& metas.len() >= 13
    &&& fee_accounts_derived(
        snapshot.fund_state,
        params.destination_mint,
        FeeAccounts {
            swap_fee: metas[7].pubkey,
            host_fee: metas[8].pubkey,
            manager_fee: metas[9].pubkey,
        },
    )
    &&& metas == swap_accounts_spec(
        snapshot.fund_state,
        snapshot.token_list,
        snapshot.key,
        from_id,
        to_id,
        params,
        FeeAccounts {
            swap_fee: metas[7].pubkey,
            host_fee: metas[8].pubkey,
            manager_fee: metas[9].pubkey,
        },
    )
}

/// Finds the payload that `accounts` holds for `key`.
pub fn find_account(accounts: &Vec<KeyedAccount>, key: &Address) -> (r: Option<usize>)
    ensures
        match r {
            Some(i) => i < accounts.len() && account_data(accounts@, *key) == Some(
                accounts@[i as int].data@,
            ),
            None => account_data(accounts@, *key) is None,
        },
{
    let mut i: usize = 0;
    while i < accounts.len()
        invariant
            i <= accounts.len(),
            account_data(accounts@, *key) == account_data_from(accounts@, *key, i as int),
        decreases accounts.len() - i,
    {
        if accounts[i].key.equals(key) {
            return Some(i);
        }
        i += 1;
    }
    None
}

/// The tokens of a decoded composition lie in the catalog exactly where
/// those that the payload lists do.
proof fn lemma_composition_in_catalog(fs: FundState, fund: Seq<u8>, num_tokens: int)
    requires
        fs.wf(),
        fs.decoded_from(fund),
    ensures
        composition_in_catalog(fund, num_tokens) <==> (forall|i: int|
            0 <= i < fs.num_of_tokens ==> (#[trigger] fs.current_comp_token[i]) < num_tokens),
{
    if composition_in_catalog(fund, num_tokens) {
        assert forall|i: int| 0 <= i < fs.num_of_tokens implies (
        #[trigger] fs.current_comp_token[i]) < num_tokens by {
            assert(u64_at(fund, 176 + 8 * i) < num_tokens);
        }
    } else {
        let i = choose|i: int|
            0 <= i < u64_at(fund, 168) && i < 20 && !(#[trigger] u64_at(fund, 176 + 8 * i)
                < num_tokens);
        assert(fs.current_comp_token[i] >= num_tokens);
    }
}

/// Whether every token of the composition is a catalog entry in use.
fn composition_resolves(fs: &FundState, num_tokens: u64) -> (r: bool)
    requires
        fs.wf(),
    ensures
        r == (forall|i: int|
            0 <= i < fs.num_of_tokens ==> (#[trigger] fs.current_comp_token[i]) < num_tokens),
{
    let count = fs.num_of_tokens as usize;
    let mut i: usize = 0;
    while i < count
        invariant
            i <= count <= 20,
            count == fs.num_of_tokens,
            forall|j: int| 0 <= j < i ==> (#[trigger] fs.current_comp_token[j]) < num_tokens,
        decreases count - i,
    {
        if fs.current_comp_token[i] >= num_tokens {
            return false;
        }
        i += 1;
    }
    true
}

/// Refreshes the price of every catalog entry that names an oracle.
fn refresh_prices(tl: &TokenList, accounts: &Vec<KeyedAccount>, clock: Clock) -> (r: Result<
    TokenList,
    AmmError,
>)
    ensures
        match r {
            Ok(new) => first_price_error_from(*tl, accounts@, clock, 0) is None
                && new.num_tokens == tl.num_tokens && forall|i: int|
                0 <= i < 100 ==> entry_refreshed(*tl, accounts@, clock, i, #[trigger] new.list[i]),
            Err(e) => first_price_error_from(*tl, accounts@, clock, 0) == Some(e),
        },
{
    let mut list: [TokenSettings; 100] = tl.list;
    let mut i: usize = 0;
    while i < 100
        invariant
            i <= 100,
            first_price_error_from(*tl, accounts@, clock, 0) == first_price_error_from(
                *tl,
                accounts@,
                clock,
                i as int,
            ),
            forall|j: int|
                0 <= j < i ==> entry_refreshed(*tl, accounts@, clock, j, #[trigger] list[j]),
            forall|j: int| i <= j < 100 ==> #[trigger] list[j] == tl.list[j],
        decreases 100 - i,
    {
        let entry = tl.list[i];
        if !entry.oracle_account.is_zero() {
            let position = match find_account(accounts, &entry.oracle_account) {
                Some(p) => p,
                None => {
                    return Err(AmmError::MissingAccount);
                },
            };
            let price = OraclePrice::load(&accounts[position].data, entry, clock)?;
            list[i] = TokenSettings { oracle_price: price, ..entry };
        }
        assert(entry_refreshed(*tl, accounts@, clock, i as int, list[i as int]));
        i += 1;
    }
    Ok(TokenList { num_tokens: tl.num_tokens, list })
}

impl SymmetryTokenSwap {
    #[verifier::type_invariant]
    spec fn valid(self) -> bool {
        snapshot_valid(self.fund_state, self.token_list)
    }

    /// Makes the adapter of the fund whose state and catalog are given. The
    /// curve dataset stays empty until the first refresh.
    ///
    /// Fails where either payload does not decode, and with
    /// `NumericConversion` where the composition names a token outside the
    /// catalog.
    pub fn from_keyed_account(
        fund_state_account: &KeyedAccount,
        token_list_account: &KeyedAccount,
    ) -> (r: Result<Self, AmmError>)
        ensures
            match r {
                Ok(swap) => {
                    &&& creation_error(fund_state_account.data@, token_list_account.data@) is None
                    &&& swap@.key == fund_state_account.key
                    &&& swap@.fund_state.decoded_from(fund_state_account.data@)
                    &&& swap@.token_list.decoded_from(token_list_account.data@)
                    &&& swap@.curve_data.is_empty()
                },
                Err(e) => creation_error(fund_state_account.data@, token_list_account.data@)
                    == Some(e),
            },
    {
        let fund_state = FundState::load(&fund_state_account.data)?;
        let token_list = TokenList::load(&token_list_account.data)?;
        proof {
            lemma_composition_in_catalog(
                fund_state,
                fund_state_account.data@,
                token_list.num_tokens as int,
            );
        }
        if !composition_resolves(&fund_state, token_list.num_tokens) {
            return Err(AmmError::NumericConversion);
        }
        Ok(
            SymmetryTokenSwap {
                key: fund_state_account.key,
                fund_state,
                token_list,
                curve_data: CurveData::empty(),
            },
        )
    }

    /// `floor(a * b / c)`, capped at `u64::MAX`, and `0` when `c` is `0`.
    pub fn mul_div(a: u64, b: u64, c: u64) -> (r: u64)
        ensures
            r == mul_div_spec(a as int, b as int, c as int),
    {
        crate::fixed_point::mul_div(a, b, c)
    }

    /// Worth in canonical USD units of `amount` native units at `price`.
    pub fn amount_to_usd_value(amount: u64, decimals: u8, price: u64) -> (r: u64)
        ensures
            r == amount_to_usd_spec(amount as int, decimals as nat, price as int),
    {
        mul_div_pow10(amount, price, decimals as u32)
    }

    /// Native units that `worth` canonical USD units buy at `price`.
    pub fn usd_value_to_amount(worth: u64, decimals: u8, price: u64) -> (r: u64)
        ensures
            r == usd_to_amount_spec(worth as int, decimals as nat, price as int),
    {
        mul_pow10_div(worth as u128, decimals as u32, price)
    }

    /// The name of the venue.
    pub fn label(&self) -> (r: String)
        ensures
            r@ == "Symmetry"@,
    {
        "Symmetry".to_owned()
    }

    /// The address of the fund.
    pub fn key(&self) -> (r: Address)
        ensures
            r == self@.key,
    {
        self.key
    }

    /// The fund state that was last installed. It fits the catalog.
    pub fn fund_state(&self) -> (r: FundState)
        ensures
            r == self@.fund_state,
            snapshot_valid(self@.fund_state, self@.token_list),
    {
        proof {
            use_type_invariant(self);
        }
        self.fund_state
    }

    /// The catalog, with the prices that were last installed.
    pub fn token_list(&self) -> (r: TokenList)
        ensures
            r == self@.token_list,
            snapshot_valid(self@.fund_state, self@.token_list),
    {
        proof {
            use_type_invariant(self);
        }
        self.token_list
    }

    /// The curve dataset that was last installed.
    pub fn curve_data(&self) -> (r: CurveData)
        ensures
            r == self@.curve_data,
    {
        self.curve_data
    }

    /// The mints that can be traded through the fund now: those of the
    /// tokens of the composition whose liquidity flag is not disabled.
    pub fn get_reserve_mints(&self) -> (mints: Vec<Address>)
        ensures
            mints@ == reserve_mints_of_first(
                self@.fund_state,
                self@.token_list,
                self@.fund_state.num_of_tokens as int,
            ),
    {
        proof {
            use_type_invariant(self);
        }
        let mut mints: Vec<Address> = Vec::new();
        let count = self.fund_state.num_of_tokens as usize;
        let mut i: usize = 0;
        while i < count
            invariant
                i <= count,
                count == self.fund_state.num_of_tokens,
                snapshot_valid(self.fund_state, self.token_list),
                mints@ == reserve_mints_of_first(self.fund_state, self.token_list, i as int),
            decreases count - i,
        {
            let id = self.fund_state.current_comp_token[i];
            assert(id < self.token_list.num_tokens);
            let token = self.token_list.list[id as usize];
            if token.lp_on != LP_DISABLED {
                mints.push(token.token_mint);
            }
            i += 1;
        }
        mints
    }

    /// The accounts that the host has to fetch before a refresh.
    pub fn get_accounts_to_update(&self) -> (accounts: Vec<Address>)
        ensures
            accounts@ == accounts_to_update_spec(self@.key, self@.token_list),
    {
        let mut accounts: Vec<Address> = Vec::new();
        accounts.push(Address::curve_data());
        accounts.push(self.key);
        let ghost head = accounts@;
        assert(head =~= seq![Address::curve_data(), self.key]);
        let mut i: usize = 0;
        while i < 100
            invariant
                i <= 100,
                accounts@ == head + oracles_of_first(self.token_list, i as int),
            decreases 100 - i,
        {
            let oracle = self.token_list.list[i].oracle_account;
            if !oracle.is_zero() {
                accounts.push(oracle);
            }
            assert(accounts@ =~= head + oracles_of_first(self.token_list, i + 1));
            i += 1;
        }
        accounts
    }

    /// Installs the payloads that the host fetched: the curve dataset, the
    /// fund state, and the price of every catalog entry that names an
    /// oracle, as read at the time `clock`.
    ///
    /// On failure nothing is installed.
    pub fn update(&mut self, accounts: &Vec<KeyedAccount>, clock: Clock) -> (r: Result<
        (),
        AmmError,
    >)
        ensures
            match r {
                Ok(_) => update_error(old(self)@, accounts@, clock) is None && updated(
                    old(self)@,
                    final(self)@,
                    accounts@,
                    clock,
                ),
                Err(e) => update_error(old(self)@, accounts@, clock) == Some(e) && final(self)@
                    == old(self)@,
            },
    {
        proof {
            use_type_invariant(&*self);
        }
        let curve_at = match find_account(accounts, &Address::curve_data()) {
            Some(p) => p,
            None => {
                return Err(AmmError::MissingAccount);
            },
        };
        let curve_data = CurveData::load(&accounts[curve_at].data)?;
        let fund_at = match find_account(accounts, &self.key) {
            Some(p) => p,
            None => {
                return Err(AmmError::MissingAccount);
            },
        };
        let fund_state = FundState::load(&accounts[fund_at].data)?;
        proof {
            lemma_composition_in_catalog(
                fund_state,
                accounts@[fund_at as int].data@,
                self.token_list.num_tokens as int,
            );
        }
        if !composition_resolves(&fund_state, self.token_list.num_tokens) {
            return Err(AmmError::NumericConversion);
        }
        let token_list = refresh_prices(&self.token_list, accounts, clock)?;
        self.token_list = token_list;
        self.fund_state = fund_state;
        self.curve_data = curve_data;
        Ok(())
    }

    /// The worth of the fund in canonical USD units: the sum, over the
    /// composition, of the worth of each holding at its token's average price.
    ///
    /// Fails with `OracleNotLive` where a token of the composition has no
    /// live oracle; otherwise with `ArithmeticOverflow` where the worth
    /// exceeds the 64-bit range.
    pub fn fund_worth(&self) -> (r: Result<u64, AmmError>)
        ensures
            match r {
                Ok(w) => all_live(self@.fund_state, self@.token_list) && w == fund_worth_spec(
                    self@.fund_state,
                    self@.token_list,
                ),
                Err(e) => if !all_live(self@.fund_state, self@.token_list) {
                    e == AmmError::OracleNotLive
                } else {
                    e == AmmError::ArithmeticOverflow && fund_worth_spec(
                        self@.fund_state,
                        self@.token_list,
                    ) > u64::MAX
                },
            },
    {
        proof {
            use_type_invariant(self);
        }
        fund_worth(&self.fund_state, &self.token_list)
    }

    /// The integers of the quote for a swap.
    pub fn quote_figures(&self, quote_params: &QuoteParams) -> (r: Result<QuoteFigures, AmmError>)
        ensures
            match (
                r,
                quote_spec(
                    self@.fund_state,
                    self@.token_list,
                    self@.curve_data,
                    quote_params.input_mint,
                    quote_params.in_amount as int,
                    quote_params.output_mint,
                ),
            ) {
                (Ok(figures), Ok(model)) => figures.matches(model),
                (Err(e), Err(f)) => e == f,
                _ => false,
            },
    {
        proof {
            use_type_invariant(self);
        }
        quote_figures(&self.fund_state, &self.token_list, &self.curve_data, quote_params)
    }

    /// Quotes a swap: what the fund gives for `in_amount` units of the
    /// input mint, and what the swap costs.
    ///
    /// A swap that would leave the weight band is answered with an output
    /// of zero and `not_enough_liquidity` set; it is no failure.
    pub fn quote(&self, quote_params: &QuoteParams) -> (r: Result<Quote, AmmError>)
        ensures
            match (
                r,
                quote_spec(
                    self@.fund_state,
                    self@.token_list,
                    self@.curve_data,
                    quote_params.input_mint,
                    quote_params.in_amount as int,
                    quote_params.output_mint,
                ),
            ) {
                (Ok(quote), Ok(model)) => quote.presents(model, quote_params.output_mint),
                (Err(e), Err(f)) => e == f,
                _ => false,
            },
    {
        let figures = self.quote_figures(quote_params)?;
        Ok(Quote::from_figures(figures, quote_params.output_mint))
    }

    /// Derives the three fee accounts of a swap into `mint`.
    fn fee_accounts(&self, mint: &Address) -> (r: Option<FeeAccounts>)
        ensures
            match r {
                Some(fees) => fee_accounts_derived(self@.fund_state, *mint, fees),
                None => associated_token_address(Address::swap_fee_recipient(), *mint) is None
                    || associated_token_address(self@.fund_state.host_pubkey, *mint) is None
                    || associated_token_address(self@.fund_state.manager, *mint) is None,
            },
    {
        let swap_fee = derive_associated_token_address(&Address::swap_fee_recipient(), mint)?;
        let host_fee = derive_associated_token_address(&self.fund_state.host_pubkey, mint)?;
        let manager_fee = derive_associated_token_address(&self.fund_state.manager, mint)?;
        Some(FeeAccounts { swap_fee, host_fee, manager_fee })
    }

    /// Lists the accounts of the swap that `swap_params` asks for, given
    /// the three accounts that receive its fees.
    ///
    /// Fails with `UnresolvableMint` where a mint is no catalog entry in use.
    pub fn swap_accounts_with(&self, swap_params: &SwapParams, fees: &FeeAccounts) -> (r: Result<
        Vec<AccountMeta>,
        AmmError,
    >)
        ensures
            match r {
                Ok(metas) => {
                    &&& mint_position(self@.token_list, swap_params.source_mint) matches Some(
                        from_id,
                    )
                    &&& mint_position(self@.token_list, swap_params.destination_mint) matches Some(
                        to_id,
                    )
                    &&& metas@ == swap_accounts_spec(
                        self@.fund_state,
                        self@.token_list,
                        self@.key,
                        from_id,
                        to_id,
                        *swap_params,
                        *fees,
                    )
                },
                Err(e) => e == AmmError::UnresolvableMint && (mint_position(
                    self@.token_list,
                    swap_params.source_mint,
                ) is None || mint_position(self@.token_list, swap_params.destination_mint)
                    is None),
            },
    {
        proof {
            use_type_invariant(self);
        }
        let from_id = match find_mint(&self.token_list, &swap_params.source_mint) {
            Some(i) => i,
            None => {
                return Err(AmmError::UnresolvableMint);
            },
        };
        let to_id = match find_mint(&self.token_list, &swap_params.destination_mint) {
            Some(i) => i,
            None => {
                return Err(AmmError::UnresolvableMint);
            },
        };
        Ok(
            swap_account_metas(
                &self.fund_state,
                &self.token_list,
                &self.key,
                from_id,
                to_id,
                swap_params,
                fees,
            ),
        )
    }

    /// Plans the swap that `swap_params` asks for: its leg and the accounts
    /// that its instruction takes, in order.
    ///
    /// Fails with `UnresolvableMint` where a mint is no catalog entry in
    /// use, and with `AddressDerivation` where a fee account has no address.
    pub fn get_swap_leg_and_account_metas(&self, swap_params: &SwapParams) -> (r: Result<
        SwapLegAndAccountMetas,
        AmmError,
    >)
        ensures
            match r {
                Ok(plan) => swap_plan_error(self@, *swap_params) is None && plan.swap_leg == (
                SwapLeg::Swap { swap: Swap::TokenSwap }) && swap_planned(
                    self@,
                    *swap_params,
                    plan.account_metas@,
                ),
                Err(e) => swap_plan_error(self@, *swap_params) == Some(e),
            },
    {
        if find_mint(&self.token_list, &swap_params.source_mint).is_none() || find_mint(
            &self.token_list,
            &swap_params.destination_mint,
        ).is_none() {
            return Err(AmmError::UnresolvableMint);
        }
        let fees = match self.fee_accounts(&swap_params.destination_mint) {
            Some(fees) => fees,
            None => {
                return Err(AmmError::AddressDerivation);
            },
        };
        let account_metas = self.swap_accounts_with(swap_params, &fees)?;
        proof {
            lemma_oracle_accounts_len(
                self@.fund_state,
                self@.token_list,
                self@.fund_state.num_of_tokens as int,
            );
        }
        Ok(
            SwapLegAndAccountMetas {
                swap_leg: SwapLeg::Swap { swap: Swap::TokenSwap },
                account_metas,
            },
        )
    }

    /// Builds the instruction of the swap that `swap_params` asks for: the
    /// fund program, the accounts of the plan, and the payload, with a
    /// minimum output of zero.
    pub fn swap_instruction(&self, swap_params: &SwapParams) -> (r: Result<
        SwapInstruction,
        AmmError,
    >)
        ensures
            match r {
                Ok(ix) => {
                    &&& swap_plan_error(self@, *swap_params) is None
                    &&& ix.program_id == Address::symmetry_program()
                    &&& swap_planned(self@, *swap_params, ix.accounts@)
                    &&& mint_position(self@.token_list, swap_params.source_mint) matches Some(
                        from_id,
                    )
                    &&& mint_position(self@.token_list, swap_params.destination_mint) matches Some(
                        to_id,
                    )
                    &&& ix.data@ == swap_payload(
                        from_id as u64,
                        to_id as u64,
                        swap_params.in_amount,
                    )
                },
                Err(e) => swap_plan_error(self@, *swap_params) == Some(e),
            },
    {
        let plan = self.get_swap_leg_and_account_metas(swap_params)?;
        let from_id = match find_mint(&self.token_list, &swap_params.source_mint) {
            Some(i) => i,
            None => {
                return Err(AmmError::UnresolvableMint);
            },
        };
        let to_id = match find_mint(&self.token_list, &swap_params.destination_mint) {
            Some(i) => i,
            None => {
                return Err(AmmError::UnresolvableMint);
            },
        };
        Ok(
            SwapInstruction {
                program_id: Address::symmetry_program(),
                accounts: plan.account_metas,
                data: swap_instruction_data(from_id as u64, to_id as u64, swap_params.in_amount),
            },
        )
    }

    /// A copy of the adapter that can be handed to another worker.
    pub fn clone_amm(&self) -> (r: SymmetryTokenSwap)
        ensures
            r@ == self@,
    {
        proof {
            use_type_invariant(self);
        }
        SymmetryTokenSwap {
            key: self.key,
            fund_state: self.fund_state,
            token_list: self.token_list,
            curve_data: self.curve_data,
        }
    }
}

} // verus!
