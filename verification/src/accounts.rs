//! The account payloads that the adapter reads, and their decoders.
//!
//! Every decoder reads fields at fixed byte offsets, little-endian, and fails
//! on a payload that ends before the last field it has to read.

use crate::address::Address;
use crate::error::AmmError;
use crate::wire::{read_u64, read_u8, u64_at};
use vstd::prelude::*;

verus! {

/// Capacity of the token catalog and of each side of the curve dataset.
pub const MAX_TOKENS_IN_ASSET_POOL: usize = 100;

/// Capacity of a fund's composition.
pub const NUM_TOKENS_IN_FUND: usize = 20;

/// Number of points of one side of a token's curve.
pub const NUM_OF_POINTS_IN_CURVE_DATA: usize = 10;

/// Value of a catalog entry's curve flag that enables the curve.
pub const USE_CURVE_DATA: u8 = 1;

/// Value of a catalog entry's liquidity flag that withdraws the token from swaps.
pub const LP_DISABLED: u8 = 0;

/// Bytes that a fund state payload must hold.
pub const FUND_STATE_LEN: usize = 1048;

/// Bytes of one catalog entry.
pub const TOKEN_SETTINGS_LEN: usize = 199;

/// Bytes that a curve dataset payload must hold.
pub const CURVE_DATA_LEN: usize = 48008;

/// Sell, average and buy price of a token in canonical USD units.
#[derive(Clone, Copy, Debug, PartialEq, Eq)]
pub struct OraclePrice {
    /// What the fund pays for a token that it takes in.
    pub sell_price: u64,
    /// The average price, at which holdings are valued.
    pub avg_price: u64,
    /// What the fund asks for a token that it gives out.
    pub buy_price: u64,
    /// 1 where the oracle is fresh and sound, else 0.
    pub oracle_live: u8,
}

/// One entry of the token catalog.
#[derive(Clone, Copy, Debug, PartialEq, Eq)]
pub struct TokenSettings {
    /// The mint of the token.
    pub token_mint: Address,
    /// Number of decimal digits of a native unit.
    pub decimals: u8,
    /// The custody account that holds the token for every fund.
    pub pda_token_account: Address,
    /// 0 for a price feed with a confidence interval, 1 for an indexed aggregator.
    pub oracle_type: u8,
    /// The oracle account; all zero where the token has none.
    pub oracle_account: Address,
    /// Position of the token's price inside an aggregator.
    pub oracle_index: u8,
    /// Share of the oracle's confidence that widens the spread.
    pub oracle_confidence_pct: u8,
    /// Basis points of the average price that widen the spread further.
    pub fixed_confidence_bps: u8,
    /// Fee, in basis points, on the part of a leg past the target.
    pub token_swap_fee_after_tw_bps: u8,
    /// Fee, in basis points, on the part of a leg before the target.
    pub token_swap_fee_before_tw_bps: u8,
    /// Whether the token is in use.
    pub is_live: u8,
    /// Whether the token can be swapped; `LP_DISABLED` where it cannot.
    pub lp_on: u8,
    /// Whether the curve applies to the token; `USE_CURVE_DATA` where it does.
    pub use_curve_data: u8,
    /// Further settings. The last three bytes of the first catalog entry
    /// are the shares of the fee, in percent, of the protocol, the host and
    /// the manager.
    pub additional_data: [u8; 63],
    /// The price that was last read from the oracle.
    pub oracle_price: OraclePrice,
}

/// The token catalog: the first `num_tokens` entries of `list` are in use.
#[derive(Clone, Copy, Debug, PartialEq, Eq)]
pub struct TokenList {
    /// Number of entries in use.
    pub num_tokens: u64,
    /// The entries; the first is the numeraire.
    pub list: [TokenSettings; 100],
}

/// One side of a token's curve: the next ten inventory steps away from the target.
#[derive(Clone, Copy, Debug, PartialEq, Eq)]
pub struct TokenPriceData {
    /// Native units of each step.
    pub amount: [u64; 10],
    /// Price of each step in canonical USD units per token.
    pub price: [u64; 10],
}

/// The curve dataset, indexed by catalog position.
#[derive(Clone, Copy, Debug, PartialEq, Eq)]
pub struct CurveData {
    /// The side that applies where the fund gives the token out.
    pub buy: [TokenPriceData; 100],
    /// The side that applies where the fund takes the token in.
    pub sell: [TokenPriceData; 100],
}

/// A fund's holdings and target weights.
#[derive(Clone, Copy, Debug, PartialEq, Eq)]
pub struct FundState {
    /// The manager of the fund.
    pub manager: Address,
    /// The host through which the fund was created.
    pub host_pubkey: Address,
    /// Number of slots of the composition in use.
    pub num_of_tokens: u64,
    /// Catalog position of the token in each slot.
    pub current_comp_token: [u64; 20],
    /// Native units held in each slot.
    pub current_comp_amount: [u64; 20],
    /// Weight that each slot aims at.
    pub target_weight: [u64; 20],
    /// Sum of the target weights.
    pub weight_sum: u64,
    /// Allowed deviation from the target weight, in basis points.
    pub rebalance_threshold: u64,
    /// Share of that deviation, in basis points, that swaps may use.
    pub lp_offset_threshold: u64,
}

impl OraclePrice {
    /// The price of a token whose oracle has not been read.
    pub open spec fn is_unset(self) -> bool {
        self.sell_price == 0 && self.avg_price == 0 && self.buy_price == 0 && self.oracle_live
            == 0
    }

    /// The price of a token whose oracle has not been read.
    pub fn unset() -> (p: OraclePrice)
        ensures
            p.is_unset(),
    {
        OraclePrice { sell_price: 0, avg_price: 0, buy_price: 0, oracle_live: 0 }
    }
}

impl FundState {
    /// The composition does not exceed its capacity.
    pub open spec fn wf(self) -> bool {
        self.num_of_tokens <= 20
    }

    /// Every field holds what `data` stores at the field's offset.
    pub open spec fn decoded_from(self, data: Seq<u8>) -> bool {
        &&& data.len() >= 1048
        &&& self.manager@ == data.subrange(16, 48)
        &&& self.host_pubkey@ == data.subrange(128, 160)
        &&& self.num_of_tokens == u64_at(data, 168)
        &&& forall|i: int|
            0 <= i < 20 ==> #[trigger] self.current_comp_token[i] == u64_at(data, 176 + 8 * i)
        &&& forall|i: int|
            0 <= i < 20 ==> #[trigger] self.current_comp_amount[i] == u64_at(data, 336 + 8 * i)
        &&& forall|i: int|
            0 <= i < 20 ==> #[trigger] self.target_weight[i] == u64_at(data, 656 + 8 * i)
        &&& self.weight_sum == u64_at(data, 816)
        &&& self.rebalance_threshold == u64_at(data, 1024)
        &&& self.lp_offset_threshold == u64_at(data, 1040)
    }

    /// Why `data` is no fund state payload, if it is none: it is shorter
    /// than 1048 bytes, or it counts more tokens than a composition holds.
    pub open spec fn decode_error(data: Seq<u8>) -> Option<AmmError> {
        if data.len() < 1048 {
            Some(AmmError::BlobTooShort)
        } else if u64_at(data, 168) > 20 {
            Some(AmmError::NumericConversion)
        } else {
            None
        }
    }

    /// Decodes a fund state payload.
    ///
    /// Fails with `BlobTooShort` on fewer than 1048 bytes, and with
    /// `NumericConversion` where the stored token count exceeds the capacity
    /// of the composition.
    pub fn load(account_data: &Vec<u8>) -> (r: Result<FundState, AmmError>)
        ensures
            match r {
                Ok(fs) => Self::decode_error(account_data@) is None && fs.decoded_from(
                    account_data@,
                ) && fs.wf(),
                Err(e) => Self::decode_error(account_data@) == Some(e),
            },
    {
        if account_data.len() < FUND_STATE_LEN {
            return Err(AmmError::BlobTooShort);
        }
        let num_of_tokens = read_u64(account_data, 168)?;
        if num_of_tokens > 20 {
            return Err(AmmError::NumericConversion);
        }
        let mut current_comp_token: [u64; 20] = [0u64; 20];
        let mut current_comp_amount: [u64; 20] = [0u64; 20];
        let mut target_weight: [u64; 20] = [0u64; 20];
        let mut i: usize = 0;
        while i < 20
            invariant
                i <= 20,
                account_data.len() >= 1048,
                forall|k: int|
                    0 <= k < i ==> #[trigger] current_comp_token[k] == u64_at(
                        account_data@,
                        176 + 8 * k,
                    ),
                forall|k: int|
                    0 <= k < i ==> #[trigger] current_comp_amount[k] == u64_at(
                        account_data@,
                        336 + 8 * k,
                    ),
                forall|k: int|
                    0 <= k < i ==> #[trigger] target_weight[k] == u64_at(
                        account_data@,
                        656 + 8 * k,
                    ),
            decreases 20 - i,
        {
            let token = read_u64(account_data, 176 + i * 8)?;
            let amount = read_u64(account_data, 336 + i * 8)?;
            let weight = read_u64(account_data, 656 + i * 8)?;
            current_comp_token[i] = token;
            current_comp_amount[i] = amount;
            target_weight[i] = weight;
            i += 1;
        }
        let weight_sum = read_u64(account_data, 816)?;
        let rebalance_threshold = read_u64(account_data, 1024)?;
        let lp_offset_threshold = read_u64(account_data, 1040)?;
        let manager = Address::read(account_data, 16)?;
        let host_pubkey = Address::read(account_data, 128)?;
        Ok(
            FundState {
                manager,
                host_pubkey,
                num_of_tokens,
                current_comp_token,
                current_comp_amount,
                target_weight,
                weight_sum,
                rebalance_threshold,
                lp_offset_threshold,
            },
        )
    }
}

impl TokenSettings {
    /// An unused catalog slot: every field is zero and no price is set.
    pub open spec fn is_empty(self) -> bool {
        &&& self.token_mint.is_default()
        &&& self.decimals == 0
        &&& self.pda_token_account.is_default()
        &&& self.oracle_type == 0
        &&& self.oracle_account.is_default()
        &&& self.oracle_index == 0
        &&& self.oracle_confidence_pct == 0
        &&& self.fixed_confidence_bps == 0
        &&& self.token_swap_fee_after_tw_bps == 0
        &&& self.token_swap_fee_before_tw_bps == 0
        &&& self.is_live == 0
        &&& self.lp_on == 0
        &&& self.use_curve_data == 0
        &&& forall|i: int| 0 <= i < 63 ==> self.additional_data[i] == 0
        &&& self.oracle_price.is_unset()
    }

    /// Every field holds what the 199 bytes of `entry` store for it; no price is set.
    pub open spec fn decoded_from(self, entry: Seq<u8>) -> bool {
        &&& entry.len() == 199
        &&& self.token_mint@ == entry.subrange(0, 32)
        &&& self.decimals == entry[32]
        &&& self.pda_token_account@ == entry.subrange(63, 95)
        &&& self.oracle_type == entry[95]
        &&& self.oracle_account@ == entry.subrange(96, 128)
        &&& self.oracle_index == entry[128]
        &&& self.oracle_confidence_pct == entry[129]
        &&& self.fixed_confidence_bps == entry[130]
        &&& self.token_swap_fee_after_tw_bps == entry[131]
        &&& self.token_swap_fee_before_tw_bps == entry[132]
        &&& self.is_live == entry[133]
        &&& self.lp_on == entry[134]
        &&& self.use_curve_data == entry[135]
        &&& self.additional_data@ == entry.subrange(136, 199)
        &&& self.oracle_price.is_unset()
    }

    /// Share of the total fee, in percent, that goes to the protocol.
    pub open spec fn symmetry_share(self) -> int {
        self.additional_data[60] as int
    }

    /// Share of the total fee, in percent, that goes to the fund's host.
    pub open spec fn host_share(self) -> int {
        self.additional_data[61] as int
    }

    /// Share of the total fee, in percent, that goes to the fund's manager.
    pub open spec fn manager_share(self) -> int {
        self.additional_data[62] as int
    }

    /// An unused catalog slot.
    pub fn empty() -> (s: TokenSettings)
        ensures
            s.is_empty(),
    {
        TokenSettings {
            token_mint: Address::zero(),
            decimals: 0,
            pda_token_account: Address::zero(),
            oracle_type: 0,
            oracle_account: Address::zero(),
            oracle_index: 0,
            oracle_confidence_pct: 0,
            fixed_confidence_bps: 0,
            token_swap_fee_after_tw_bps: 0,
            token_swap_fee_before_tw_bps: 0,
            is_live: 0,
            lp_on: 0,
            use_curve_data: 0,
            additional_data: [0u8; 63],
            oracle_price: OraclePrice::unset(),
        }
    }

    /// Decodes the catalog entry stored in the 199 bytes that start at `offset`.
    pub fn read(data: &Vec<u8>, offset: usize) -> (r: Result<TokenSettings, AmmError>)
        ensures
            match r {
                Ok(s) => offset + 199 <= data.len() && s.decoded_from(
                    data@.subrange(offset as int, offset + 199),
                ),
                Err(e) => offset + 199 > data.len() && e == AmmError::BlobTooShort,
            },
    {
        if data.len() < TOKEN_SETTINGS_LEN || offset > data.len() - TOKEN_SETTINGS_LEN {
            return Err(AmmError::BlobTooShort);
        }
        let ghost entry = data@.subrange(offset as int, offset + 199);
        let token_mint = Address::read(data, offset)?;
        let pda_token_account = Address::read(data, offset + 63)?;
        let oracle_account = Address::read(data, offset + 96)?;
        let mut additional_data: [u8; 63] = [0u8; 63];
        let mut i: usize = 0;
        while i < 63
            invariant
                i <= 63,
                offset + 199 <= data.len(),
                forall|k: int| 0 <= k < i ==> additional_data[k] == data@[offset + 136 + k],
            decreases 63 - i,
        {
            additional_data[i] = data[offset + 136 + i];
            i += 1;
        }
        proof {
            assert(token_mint@ =~= entry.subrange(0, 32));
            assert(pda_token_account@ =~= entry.subrange(63, 95));
            assert(oracle_account@ =~= entry.subrange(96, 128));
            assert(additional_data@ =~= entry.subrange(136, 199));
        }
        Ok(
            TokenSettings {
                token_mint,
                decimals: read_u8(data, offset + 32)?,
                pda_token_account,
                oracle_type: read_u8(data, offset + 95)?,
                oracle_account,
                oracle_index: read_u8(data, offset + 128)?,
                oracle_confidence_pct: read_u8(data, offset + 129)?,
                fixed_confidence_bps: read_u8(data, offset + 130)?,
                token_swap_fee_after_tw_bps: read_u8(data, offset + 131)?,
                token_swap_fee_before_tw_bps: read_u8(data, offset + 132)?,
                is_live: read_u8(data, offset + 133)?,
                lp_on: read_u8(data, offset + 134)?,
                use_curve_data: read_u8(data, offset + 135)?,
                additional_data,
                oracle_price: OraclePrice::unset(),
            },
        )
    }
}

impl TokenList {
    /// The number of entries in use does not exceed the capacity.
    pub open spec fn wf(self) -> bool {
        self.num_tokens <= 100
    }

    /// The entries in use hold what `data` stores for them; the others are unused slots.
    pub open spec fn decoded_from(self, data: Seq<u8>) -> bool {
        &&& data.len() >= 16
        &&& self.num_tokens == u64_at(data, 8)
        &&& self.num_tokens <= 100
        &&& data.len() >= 16 + 199 * self.num_tokens
        &&& forall|i: int|
            0 <= i < self.num_tokens ==> (#[trigger] self.list[i]).decoded_from(
                data.subrange(16 + 199 * i, 16 + 199 * (i + 1)),
            )
        &&& forall|i: int| self.num_tokens <= i < 100 ==> (#[trigger] self.list[i]).is_empty()
    }

    /// Why `data` is no token catalog payload, if it is none: it ends
    /// before the count, it counts more entries than a catalog holds, or it
    /// ends before the last entry in use.
    pub open spec fn decode_error(data: Seq<u8>) -> Option<AmmError> {
        if data.len() < 16 {
            Some(AmmError::BlobTooShort)
        } else if u64_at(data, 8) > 100 {
            Some(AmmError::NumericConversion)
        } else if data.len() < 16 + 199 * u64_at(data, 8) {
            Some(AmmError::BlobTooShort)
        } else {
            None
        }
    }

    /// Decodes a token catalog payload.
    ///
    /// Fails with `BlobTooShort` where the payload ends before the count or
    /// before the last entry in use, and with `NumericConversion` where the
    /// count exceeds the capacity of the catalog.
    pub fn load(account_data: &Vec<u8>) -> (r: Result<TokenList, AmmError>)
        ensures
            match r {
                Ok(tl) => Self::decode_error(account_data@) is None && tl.decoded_from(
                    account_data@,
                ),
                Err(e) => Self::decode_error(account_data@) == Some(e),
            },
    {
        let num_tokens = read_u64(account_data, 8)?;
        if num_tokens > 100 {
            return Err(AmmError::NumericConversion);
        }
        let count = num_tokens as usize;
        if account_data.len() < 16 + 199 * count {
            return Err(AmmError::BlobTooShort);
        }
        let mut list: [TokenSettings; 100] = [TokenSettings::empty(); 100];
        let mut i: usize = 0;
        while i < count
            invariant
                i <= count <= 100,
                account_data.len() >= 16 + 199 * count,
                forall|k: int|
                    0 <= k < i ==> (#[trigger] list[k]).decoded_from(
                        account_data@.subrange(16 + 199 * k, 16 + 199 * (k + 1)),
                    ),
                forall|k: int| i <= k < 100 ==> (#[trigger] list[k]).is_empty(),
            decreases count - i,
        {
            let entry = TokenSettings::read(account_data, 16 + 199 * i)?;
            list[i] = entry;
            i += 1;
        }
        Ok(TokenList { num_tokens, list })
    }
}

impl TokenPriceData {
    /// A curve side without any step.
    pub open spec fn is_empty(self) -> bool {
        forall|j: int|
            0 <= j < 10 ==> #[trigger] self.amount[j] == 0 && #[trigger] self.price[j] == 0
    }

    /// The ten amounts and the ten prices are those stored from `base` on.
    pub open spec fn decoded_from(self, data: Seq<u8>, base: int) -> bool {
        &&& forall|j: int| 0 <= j < 10 ==> #[trigger] self.amount[j] == u64_at(data, base + 8 * j)
        &&& forall|j: int|
            0 <= j < 10 ==> #[trigger] self.price[j] == u64_at(data, base + 80 + 8 * j)
    }

    /// A curve side without any step.
    pub fn empty() -> (c: TokenPriceData)
        ensures
            c.is_empty(),
    {
        TokenPriceData { amount: [0u64; 10], price: [0u64; 10] }
    }

    /// Decodes the curve side stored in the 160 bytes that start at `base`.
    pub fn read(data: &Vec<u8>, base: usize) -> (r: Result<TokenPriceData, AmmError>)
        ensures
            match r {
                Ok(c) => base + 160 <= data.len() && c.decoded_from(data@, base as int),
                Err(e) => base + 160 > data.len() && e == AmmError::BlobTooShort,
            },
    {
        if data.len() < 160 || base > data.len() - 160 {
            return Err(AmmError::BlobTooShort);
        }
        let mut amount: [u64; 10] = [0u64; 10];
        let mut price: [u64; 10] = [0u64; 10];
        let mut j: usize = 0;
        while j < 10
            invariant
                j <= 10,
                base + 160 <= data.len(),
                forall|k: int| 0 <= k < j ==> #[trigger] amount[k] == u64_at(data@, base + 8 * k),
                forall|k: int|
                    0 <= k < j ==> #[trigger] price[k] == u64_at(data@, base + 80 + 8 * k),
            decreases 10 - j,
        {
            let a = read_u64(data, base + j * 8)?;
            let p = read_u64(data, base + 80 + j * 8)?;
            amount[j] = a;
            price[j] = p;
            j += 1;
        }
        Ok(TokenPriceData { amount, price })
    }
}

impl CurveData {
    /// No token has any curve step.
    pub open spec fn is_empty(self) -> bool {
        forall|i: int|
            0 <= i < 100 ==> (#[trigger] self.buy[i]).is_empty() && (
            #[trigger] self.sell[i]).is_empty()
    }

    /// Each token's buy and sell side hold what `data` stores for them.
    pub open spec fn decoded_from(self, data: Seq<u8>) -> bool {
        &&& data.len() >= 48008
        &&& forall|i: int|
            0 <= i < 100 ==> (#[trigger] self.buy[i]).decoded_from(data, 8 + 160 * i)
        &&& forall|i: int|
            0 <= i < 100 ==> (#[trigger] self.sell[i]).decoded_from(data, 32008 + 160 * i)
    }

    /// Why `data` is no curve dataset payload, if it is none: it is
    /// shorter than 48008 bytes.
    pub open spec fn decode_error(data: Seq<u8>) -> Option<AmmError> {
        if data.len() < 48008 {
            Some(AmmError::BlobTooShort)
        } else {
            None
        }
    }

    /// Decodes a curve dataset payload; fails with `BlobTooShort` on fewer than 48008 bytes.
    pub fn load(account_data: &Vec<u8>) -> (r: Result<CurveData, AmmError>)
        ensures
            match r {
                Ok(cd) => Self::decode_error(account_data@) is None && cd.decoded_from(
                    account_data@,
                ),
                Err(e) => Self::decode_error(account_data@) == Some(e),
            },
    {
        if account_data.len() < CURVE_DATA_LEN {
            return Err(AmmError::BlobTooShort);
        }
        let mut buy: [TokenPriceData; 100] = [TokenPriceData::empty(); 100];
        let mut sell: [TokenPriceData; 100] = [TokenPriceData::empty(); 100];
        let mut i: usize = 0;
        while i < 100
            invariant
                i <= 100,
                account_data.len() >= 48008,
                forall|k: int|
                    0 <= k < i ==> (#[trigger] buy[k]).decoded_from(account_data@, 8 + 160 * k),
                forall|k: int|
                    0 <= k < i ==> (#[trigger] sell[k]).decoded_from(
                        account_data@,
                        32008 + 160 * k,
                    ),
            decreases 100 - i,
        {
            let b = TokenPriceData::read(account_data, 8 + i * 160)?;
            let s = TokenPriceData::read(account_data, 32008 + i * 160)?;
            buy[i] = b;
            sell[i] = s;
            i += 1;
        }
        Ok(CurveData { buy, sell })
    }

    /// The dataset that stands in until the first refresh: no token has any curve step.
    pub fn empty() -> (cd: CurveData)
        ensures
            cd.is_empty(),
    {
        CurveData { buy: [TokenPriceData::empty(); 100], sell: [TokenPriceData::empty(); 100] }
    }
}

} // verus!
