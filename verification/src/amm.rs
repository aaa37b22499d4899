//! The values exchanged with the host that drives the adapter.

use crate::address::Address;
use rust_decimal::Decimal;
use vstd::prelude::*;

verus! {

/// A decimal number of up to 96 bits with a scale of up to 28 digits.
#[verifier::external_type_specification]
#[verifier::external_body]
pub struct ExDecimal(Decimal);

/// The decimal `num / 10^scale`, as `Decimal::new` builds it.
pub uninterp spec fn decimal_of(num: int, scale: nat) -> Decimal;

/// Calls `rust_decimal::Decimal::new`, which builds the decimal with the
/// mantissa `num` and the scale `scale`, and panics on a scale above 28.
/// The result is named `decimal_of(num, scale)`: it depends on nothing else.
#[verifier::external_body]
pub(crate) fn decimal_new(num: i64, scale: u32) -> (d: Decimal)
    requires
        scale <= 28,
    ensures
        d == decimal_of(num as int, scale as nat),
{
    Decimal::new(num, scale)
}

/// An account and the payload that the host fetched for it.
#[derive(Clone, Debug, PartialEq, Eq)]
pub struct KeyedAccount {
    pub key: Address,
    pub data: Vec<u8>,
}

/// The time at which account payloads are read.
#[derive(Clone, Copy, Debug, PartialEq, Eq)]
pub struct Clock {
    /// The current slot.
    pub slot: u64,
    /// Seconds since the Unix epoch.
    pub unix_timestamp: u64,
}

/// A request for a quote.
#[derive(Clone, Copy, Debug, PartialEq, Eq)]
pub struct QuoteParams {
    pub input_mint: Address,
    pub in_amount: u64,
    pub output_mint: Address,
}

/// The integers of a quote. Percentages are in units of `10^-4` percent.
#[derive(Clone, Copy, Debug, PartialEq, Eq)]
pub struct QuoteFigures {
    pub in_amount: u64,
    pub out_amount: u64,
    pub fee_amount: u64,
    pub fee_bps: i64,
    pub price_impact_bps: i64,
    pub not_enough_liquidity: bool,
}

/// A quote as the host receives it.
#[derive(Clone, Copy, Debug, PartialEq)]
pub struct Quote {
    pub in_amount: u64,
    pub out_amount: u64,
    pub fee_amount: u64,
    pub fee_mint: Address,
    pub fee_pct: Decimal,
    pub price_impact_pct: Decimal,
    pub not_enough_liquidity: bool,
}

impl Quote {
    /// The figures of a quote and the mint in which its fee is paid.
    pub open spec fn carries(self, figures: QuoteFigures, fee_mint: Address) -> bool {
        &&& self.in_amount == figures.in_amount
        &&& self.out_amount == figures.out_amount
        &&& self.fee_amount == figures.fee_amount
        &&& self.fee_mint == fee_mint
        &&& self.fee_pct == decimal_of(figures.fee_bps as int, 4)
        &&& self.price_impact_pct == decimal_of(figures.price_impact_bps as int, 4)
        &&& self.not_enough_liquidity == figures.not_enough_liquidity
    }

    /// Presents the figures of a quote with its percentages as decimals of
    /// four fractional digits.
    pub fn from_figures(figures: QuoteFigures, fee_mint: Address) -> (q: Quote)
        ensures
            q.carries(figures, fee_mint),
    {
        Quote {
            in_amount: figures.in_amount,
            out_amount: figures.out_amount,
            fee_amount: figures.fee_amount,
            fee_mint,
            fee_pct: decimal_new(figures.fee_bps, 4),
            price_impact_pct: decimal_new(figures.price_impact_bps, 4),
            not_enough_liquidity: figures.not_enough_liquidity,
        }
    }
}

/// A request for the accounts of a swap instruction.
#[derive(Clone, Copy, Debug, PartialEq, Eq)]
pub struct SwapParams {
    pub source_mint: Address,
    pub destination_mint: Address,
    pub user_source_token_account: Address,
    pub user_destination_token_account: Address,
    pub user_transfer_authority: Address,
    pub open_order_address: Option<Address>,
    pub in_amount: u64,
}

/// The kind of venue a swap leg goes through.
#[derive(Clone, Copy, Debug, PartialEq, Eq)]
pub enum Swap {
    TokenSwap,
}

/// One leg of a route.
#[derive(Clone, Copy, Debug, PartialEq, Eq)]
pub enum SwapLeg {
    Swap { swap: Swap },
}

/// The role of one account in an instruction.
#[derive(Clone, Copy, Debug, PartialEq, Eq)]
pub struct AccountMeta {
    pub pubkey: Address,
    pub is_signer: bool,
    pub is_writable: bool,
}

impl AccountMeta {
    /// A writable account.
    pub fn new(pubkey: Address, is_signer: bool) -> (m: AccountMeta)
        ensures
            m == (AccountMeta { pubkey, is_signer, is_writable: true }),
    {
        AccountMeta { pubkey, is_signer, is_writable: true }
    }

    /// A read-only account.
    pub fn new_readonly(pubkey: Address, is_signer: bool) -> (m: AccountMeta)
        ensures
            m == (AccountMeta { pubkey, is_signer, is_writable: false }),
    {
        AccountMeta { pubkey, is_signer, is_writable: false }
    }
}

/// The leg of a swap and the accounts that its instruction takes, in order.
#[derive(Clone, Debug, PartialEq, Eq)]
pub struct SwapLegAndAccountMetas {
    pub swap_leg: SwapLeg,
    pub account_metas: Vec<AccountMeta>,
}

/// A swap instruction: the program, its accounts in order, and its payload.
#[derive(Clone, Debug, PartialEq, Eq)]
pub struct SwapInstruction {
    pub program_id: Address,
    pub accounts: Vec<AccountMeta>,
    pub data: Vec<u8>,
}

} // verus!
