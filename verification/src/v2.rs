//! The second generation of the account layout: a smaller catalog stored
//! field by field, worth in units of a millionth of a dollar, and a price
//! given as a band around the oracle's price.

use crate::accounts::{CurveData, TokenPriceData};
use crate::address::Address;
use crate::error::AmmError;
use crate::fixed_point::{
    lemma_mul_div_range, lemma_pow10_increases, mul_div_pow10, pow10, pow10_checked, saturate,
    ONE_USD,
};
use crate::quote::{fee_share, split_fee, FeeSplit};
use crate::wire::{read_u32, read_u64, read_u8, u32_at, u64_at};
use vstd::arithmetic::div_mod::{lemma_div_by_multiple, lemma_div_multiples_vanish_quotient};
use vstd::arithmetic::mul::{lemma_mul_is_commutative, lemma_mul_nonnegative};
use vstd::prelude::*;

verus! {

/// Capacity of the catalog in the second layout.
pub const MAX_TOKENS_V2: usize = 50;

/// One US dollar in the canonical units of the second layout.
pub const ONE_USD_V2: u64 = 1_000_000;

/// Bytes that a catalog payload of the second layout must hold.
pub const TOKEN_CATALOG_V2_LEN: usize = 25266;

/// Share of the fee, in percent, that the protocol receives in the second layout.
pub const FLAT_SYMMETRY_SHARE: u8 = 5;

/// Share of the fee, in percent, that the host receives in the second layout.
pub const FLAT_HOST_SHARE: u8 = 20;

/// Share of the fee, in percent, that the manager receives in the second layout.
pub const FLAT_MANAGER_SHARE: u8 = 20;

/// The generation of the account layout that a fund uses.
#[derive(Clone, Copy, Debug, PartialEq, Eq, Structural)]
pub enum LayoutProfile {
    V1,
    V2,
}

impl LayoutProfile {
    /// Capacity of the token catalog.
    pub open spec fn max_tokens_spec(self) -> int {
        match self {
            LayoutProfile::V1 => 100,
            LayoutProfile::V2 => 50,
        }
    }

    /// Number of decimal digits of the canonical USD unit.
    pub open spec fn usd_decimals_spec(self) -> nat {
        match self {
            LayoutProfile::V1 => 12,
            LayoutProfile::V2 => 6,
        }
    }

    /// Capacity of the token catalog.
    pub fn max_tokens(&self) -> (r: usize)
        ensures
            r == self.max_tokens_spec(),
    {
        match self {
            LayoutProfile::V1 => 100,
            LayoutProfile::V2 => MAX_TOKENS_V2,
        }
    }

    /// One US dollar in canonical units.
    pub fn one_usd(&self) -> (r: u64)
        ensures
            r == pow10(self.usd_decimals_spec()),
    {
        proof {
            reveal_with_fuel(pow10, 13);
        }
        match self {
            LayoutProfile::V1 => ONE_USD,
            LayoutProfile::V2 => ONE_USD_V2,
        }
    }
}

/// One entry of the catalog in the second layout.
#[derive(Clone, Copy, Debug, PartialEq, Eq)]
pub struct TokenEntryV2 {
    pub mint: Address,
    pub custody: Address,
    pub oracle: Address,
    pub decimals: u8,
}

/// The token catalog in the second layout: fifty entries, stored field by field.
#[derive(Clone, Copy, Debug, PartialEq, Eq)]
pub struct TokenCatalogV2 {
    pub list: [TokenEntryV2; 50],
}

impl TokenEntryV2 {
    /// The entry holds what `data` stores for position `i`.
    pub open spec fn decoded_from(self, data: Seq<u8>, i: int) -> bool {
        &&& self.mint@ == data.subrange(16 + 32 * i, 48 + 32 * i)
        &&& self.custody@ == data.subrange(6416 + 32 * i, 6448 + 32 * i)
        &&& self.oracle@ == data.subrange(18816 + 32 * i, 18848 + 32 * i)
        &&& self.decimals == data[25216 + i]
    }
}

impl TokenCatalogV2 {
    /// Every entry holds what `data` stores for its position.
    pub open spec fn decoded_from(self, data: Seq<u8>) -> bool {
        &&& data.len() >= 25266
        &&& forall|i: int| 0 <= i < 50 ==> (#[trigger] self.list[i]).decoded_from(data, i)
    }

    /// Decodes a catalog payload of the second layout; fails with
    /// `BlobTooShort` on fewer than 25266 bytes.
    pub fn load(account_data: &Vec<u8>) -> (r: Result<TokenCatalogV2, AmmError>)
        ensures
            match r {
                Ok(catalog) => catalog.decoded_from(account_data@),
                Err(e) => account_data.len() < 25266 && e == AmmError::BlobTooShort,
            },
    {
        if account_data.len() < TOKEN_CATALOG_V2_LEN {
            return Err(AmmError::BlobTooShort);
        }
        let blank = TokenEntryV2 {
            mint: Address::zero(),
            custody: Address::zero(),
            oracle: Address::zero(),
            decimals: 0,
        };
        let mut list: [TokenEntryV2; 50] = [blank; 50];
        let mut i: usize = 0;
        while i < 50
            invariant
                i <= 50,
                account_data.len() >= 25266,
                forall|k: int|
                    0 <= k < i ==> (#[trigger] list[k]).decoded_from(account_data@, k),
            decreases 50 - i,
        {
            let entry = TokenEntryV2 {
                mint: Address::read(account_data, 16 + 32 * i)?,
                custody: Address::read(account_data, 6416 + 32 * i)?,
                oracle: Address::read(account_data, 18816 + 32 * i)?,
                decimals: read_u8(account_data, 25216 + i)?,
            };
            list[i] = entry;
            i += 1;
        }
        Ok(TokenCatalogV2 { list })
    }
}

impl CurveData {
    /// The curve sides of the tokens that the profile has room for hold
    /// what `data` stores for them; the others have no step.
    pub open spec fn decoded_for(self, profile: LayoutProfile, data: Seq<u8>) -> bool {
        &&& data.len() >= 32008 + 160 * profile.max_tokens_spec()
        &&& forall|i: int|
            0 <= i < profile.max_tokens_spec() ==> (#[trigger] self.buy[i]).decoded_from(
                data,
                8 + 160 * i,
            )
        &&& forall|i: int|
            0 <= i < profile.max_tokens_spec() ==> (#[trigger] self.sell[i]).decoded_from(
                data,
                32008 + 160 * i,
            )
        &&& forall|i: int|
            profile.max_tokens_spec() <= i < 100 ==> (#[trigger] self.buy[i]).is_empty()
        &&& forall|i: int|
            profile.max_tokens_spec() <= i < 100 ==> (#[trigger] self.sell[i]).is_empty()
    }

    /// Decodes a curve dataset payload of the given layout: as many tokens
    /// as the catalog of that layout holds, at the same offsets in either.
    /// Fails with `BlobTooShort` where the payload ends before the sell
    /// side of the last of these tokens.
    pub fn load_for(profile: LayoutProfile, account_data: &Vec<u8>) -> (r: Result<
        CurveData,
        AmmError,
    >)
        ensures
            match r {
                Ok(cd) => cd.decoded_for(profile, account_data@),
                Err(e) => e == AmmError::BlobTooShort && account_data.len() < 32008 + 160
                    * profile.max_tokens_spec(),
            },
    {
        let count = profile.max_tokens();
        if account_data.len() < 32008 + 160 * count {
            return Err(AmmError::BlobTooShort);
        }
        let mut buy: [TokenPriceData; 100] = [TokenPriceData::empty(); 100];
        let mut sell: [TokenPriceData; 100] = [TokenPriceData::empty(); 100];
        let mut i: usize = 0;
        while i < count
            invariant
                i <= count <= 100,
                count == profile.max_tokens_spec(),
                account_data.len() >= 32008 + 160 * count,
                forall|k: int|
                    0 <= k < i ==> (#[trigger] buy[k]).decoded_from(account_data@, 8 + 160 * k),
                forall|k: int|
                    0 <= k < i ==> (#[trigger] sell[k]).decoded_from(
                        account_data@,
                        32008 + 160 * k,
                    ),
                forall|k: int| i <= k < 100 ==> (#[trigger] buy[k]).is_empty(),
                forall|k: int| i <= k < 100 ==> (#[trigger] sell[k]).is_empty(),
            decreases count - i,
        {
            let b = TokenPriceData::read(account_data, 8 + i * 160)?;
            let s = TokenPriceData::read(account_data, 32008 + i * 160)?;
            buy[i] = b;
            sell[i] = s;
            i += 1;
        }
        Ok(CurveData { buy, sell })
    }
}

/// Worth, in millionths of a dollar, of `amount` native units of a token
/// with `decimals` decimals at a price of `price` times ten to the minus
/// `shift`.
pub open spec fn amount_to_usd_v2_spec(amount: int, decimals: nat, price: int, shift: nat) -> int {
    saturate((amount * price * 1_000_000) / (pow10(decimals + shift) as int))
}

/// Powers of ten multiply as their exponents add.
pub proof fn lemma_pow10_adds(a: nat, b: nat)
    ensures
        pow10(a + b) == pow10(a) * pow10(b),
    decreases b,
{
    if b == 0 {
        assert(pow10(a) * 1 == pow10(a)) by (nonlinear_arith);
    } else {
        lemma_pow10_adds(a, (b - 1) as nat);
        assert(pow10(a + b) == 10 * pow10((a + b - 1) as nat));
        assert(10 * (pow10(a) * pow10((b - 1) as nat)) == pow10(a) * (10 * pow10((b - 1) as nat)))
            by (nonlinear_arith);
    }
}

/// Worth of an amount in the canonical units of the second layout.
///
/// The scale of a millionth of a dollar and the scale of the token and its
/// price are cancelled against each other before the worth is computed, so
/// that the intermediate product stays small. The result is capped at
/// `u64::MAX`. Fails with `NumericConversion` on a positive exponent.
pub fn amount_to_usd_v2(amount: u64, decimals: u8, price: u64, expo: i32) -> (r: Result<
    u64,
    AmmError,
>)
    ensures
        match r {
            Ok(v) => expo <= 0 && v == amount_to_usd_v2_spec(
                amount as int,
                decimals as nat,
                price as int,
                (-expo) as nat,
            ),
            Err(e) => expo > 0 && e == AmmError::NumericConversion,
        },
{
    if expo > 0 {
        return Err(AmmError::NumericConversion);
    }
    let shift: u32 = (-(expo as i64)) as u32;
    let total: u32 = decimals as u32 + shift;
    let ghost x = amount as int * price as int;
    assert(0 <= x <= 0xffff_ffff_ffff_ffff * 0xffff_ffff_ffff_ffff) by (nonlinear_arith)
        requires
            x == amount as int * price as int,
            0 <= amount <= 0xffff_ffff_ffff_ffff,
            0 <= price <= 0xffff_ffff_ffff_ffff,
    ;
    proof {
        reveal_with_fuel(pow10, 7);
        lemma_pow10_increases(0, total as nat);
    }
    if total >= 6 {
        let value = mul_div_pow10(amount, price, total - 6);
        proof {
            let rest = pow10((total - 6) as nat) as int;
            lemma_pow10_increases(0, (total - 6) as nat);
            lemma_pow10_adds((total - 6) as nat, 6);
            lemma_div_multiples_vanish_quotient(1_000_000, x, rest);
            lemma_mul_is_commutative(1_000_000, x);
            lemma_mul_is_commutative(1_000_000, rest);
        }
        Ok(value)
    } else {
        let factor: u128 = match pow10_checked(6 - total) {
            Some(f) => f,
            None => 1,
        };
        proof {
            let t = pow10(total as nat) as int;
            lemma_pow10_increases((6 - total) as nat, 6);
            lemma_pow10_adds(total as nat, (6 - total) as nat);
            assert(t * (factor as int) == 1_000_000);
            assert(x * 1_000_000 == (x * (factor as int)) * t) by (nonlinear_arith)
                requires
                    t * (factor as int) == 1_000_000,
            ;
            lemma_mul_nonnegative(x, factor as int);
            lemma_div_by_multiple(x * (factor as int), t);
        }
        let wide: u128 = amount as u128 * price as u128;
        match wide.checked_mul(factor) {
            Some(product) => if product > u64::MAX as u128 {
                Ok(u64::MAX)
            } else {
                Ok(product as u64)
            },
            None => Ok(u64::MAX),
        }
    }
}

/// The signed 32-bit number whose bits spell the unsigned number `raw`.
pub open spec fn signed_of(raw: int) -> int {
    if raw < 0x8000_0000 {
        raw
    } else {
        raw - 0x1_0000_0000
    }
}

/// Reads an unsigned 32-bit number as the signed number with the same bits.
pub fn to_signed(raw: u32) -> (r: i32)
    ensures
        r == signed_of(raw as int),
{
    if raw < 0x8000_0000 {
        raw as i32
    } else {
        (raw as i64 - 0x1_0000_0000) as i32
    }
}

/// A price as the second layout keeps it: the oracle's price with its
/// exponent, and the band in which the token is traded.
#[derive(Clone, Copy, Debug, PartialEq, Eq)]
pub struct SimplePrice {
    pub expo: i32,
    pub price: u64,
    pub low: u64,
    pub high: u64,
}

/// The lower end of the band: the price less a hundred-thousandth of it,
/// less half the confidence.
pub open spec fn band_low(price: int, conf: int) -> int {
    (price * 99999) / 100000 - conf / 2
}

/// The upper end of the band: the price plus a hundred-thousandth of it,
/// plus half the confidence.
pub open spec fn band_high(price: int, conf: int) -> int {
    (price * 100001) / 100000 + conf / 2
}

impl SimplePrice {
    /// The band around a price with a given confidence. Fails with
    /// `ArithmeticOverflow` where the lower end would be negative or the
    /// upper end would exceed 64 bits.
    pub fn new(expo: i32, price: u64, conf: u64) -> (r: Result<SimplePrice, AmmError>)
        ensures
            match r {
                Ok(p) => p.expo == expo && p.price == price && p.low == band_low(
                    price as int,
                    conf as int,
                ) && p.high == band_high(price as int, conf as int) && p.low <= p.price <= p.high,
                Err(e) => e == AmmError::ArithmeticOverflow && (band_low(price as int, conf as int)
                    < 0 || band_high(price as int, conf as int) > u64::MAX),
            },
    {
        let half = conf / 2;
        let down: u128 = (price as u128 * 99999) / 100000;
        let up: u128 = (price as u128 * 100001) / 100000;
        if down < half as u128 || up + half as u128 > u64::MAX as u128 {
            return Err(AmmError::ArithmeticOverflow);
        }
        Ok(
            SimplePrice {
                expo,
                price,
                low: (down - half as u128) as u64,
                high: (up + half as u128) as u64,
            },
        )
    }

    /// What a price feed payload gives: the band around its price.
    pub open spec fn decoded(data: Seq<u8>) -> Result<(int, int, int), AmmError> {
        if data.len() < 224 {
            Err(AmmError::BlobTooShort)
        } else if u64_at(data, 208) >= 0x8000_0000_0000_0000 {
            Err(AmmError::NumericConversion)
        } else if band_low(u64_at(data, 208) as int, u64_at(data, 216) as int) < 0 || band_high(
            u64_at(data, 208) as int,
            u64_at(data, 216) as int,
        ) > u64::MAX {
            Err(AmmError::ArithmeticOverflow)
        } else {
            Ok(
                (
                    u64_at(data, 208) as int,
                    band_low(u64_at(data, 208) as int, u64_at(data, 216) as int),
                    band_high(u64_at(data, 208) as int, u64_at(data, 216) as int),
                ),
            )
        }
    }

    /// Decodes the price and the confidence of a price feed payload and
    /// gives the band around the price.
    ///
    /// Fails with `BlobTooShort` on fewer than 224 bytes, with
    /// `NumericConversion` on a negative price, and with
    /// `ArithmeticOverflow` where the band leaves the 64-bit range.
    pub fn load(account_data: &Vec<u8>) -> (r: Result<SimplePrice, AmmError>)
        ensures
            match (r, Self::decoded(account_data@)) {
                (Ok(p), Ok(d)) => p.price == d.0 && p.low == d.1 && p.high == d.2 && p.expo
                    == signed_of(u32_at(account_data@, 20) as int),
                (Err(e), Err(f)) => e == f,
                _ => false,
            },
    {
        if account_data.len() < 224 {
            return Err(AmmError::BlobTooShort);
        }
        let raw_exponent = read_u32(account_data, 20)?;
        let price = read_u64(account_data, 208)?;
        let conf = read_u64(account_data, 216)?;
        if price >= 0x8000_0000_0000_0000 {
            return Err(AmmError::NumericConversion);
        }
        SimplePrice::new(to_signed(raw_exponent), price, conf)
    }
}

/// The price of a curve point blended with the oracle's price, nine parts to one.
pub open spec fn blended_price_spec(curve_price: int, oracle_price: int) -> int {
    (9 * curve_price + oracle_price) / 10
}

/// Blends the price of a curve point with the oracle's price, nine parts to one.
pub fn blended_price(curve_price: u64, oracle_price: u64) -> (r: u64)
    ensures
        r == blended_price_spec(curve_price as int, oracle_price as int),
{
    ((9 * curve_price as u128 + oracle_price as u128) / 10) as u64
}

/// Divides a fee in the fixed proportion of the second layout: five percent
/// to the protocol, twenty each to the host and the manager, and the rest,
/// fifty-five percent and what rounding leaves, to the fund.
pub fn split_fee_flat(total_fees: u64) -> (r: FeeSplit)
    ensures
        r.symmetry == fee_share(total_fees as int, 5),
        r.host == fee_share(total_fees as int, 20),
        r.manager == fee_share(total_fees as int, 20),
        r.symmetry + r.host + r.manager + r.fund == total_fees,
{
    proof {
        lemma_mul_div_range(total_fees as int, 5, 100);
        lemma_mul_div_range(total_fees as int, 20, 100);
        assert((total_fees * 5) / 100 + (total_fees * 20) / 100 + (total_fees * 20) / 100
            <= total_fees);
    }
    match split_fee(total_fees, FLAT_SYMMETRY_SHARE, FLAT_HOST_SHARE, FLAT_MANAGER_SHARE) {
        Ok(split) => split,
        Err(_) => FeeSplit { symmetry: 0, host: 0, manager: 0, fund: total_fees },
    }
}

} // verus!
