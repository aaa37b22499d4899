//! The oracle decoder: from a raw oracle payload to the sell, average and
//! buy price of a token.
//!
//! Two kinds of oracle are read. A price feed carries a price with a
//! confidence interval, a negative decimal exponent, a status and the slot
//! at which it was valid. An aggregator carries, for each of its indices, a
//! price in canonical USD units and the time at which it was written.

use crate::accounts::{OraclePrice, TokenSettings};
use crate::amm::Clock;
use crate::error::AmmError;
use crate::fixed_point::{
    lemma_mul_div_range, lemma_mul_div_share, lemma_pow10_increases, mul_div, mul_div_pow10,
    mul_div_spec, pow10, BPS_DIVIDER, ONE_USD,
};
use crate::wire::{lemma_le_value_fits, read_u32, read_u64, u32_at, u64_at};
use vstd::prelude::*;

verus! {

/// Oracle kind of a price feed with a confidence interval.
pub const ORACLE_PRICE_FEED: u8 = 0;

/// Oracle kind of an indexed aggregator.
pub const ORACLE_AGGREGATOR: u8 = 1;

/// Bytes that a price feed payload must hold.
pub const PRICE_FEED_LEN: usize = 228;

/// Slots after which a price feed is stale.
pub const MAX_SLOT_AGE: u64 = 50;

/// Seconds after which an aggregator price is stale.
pub const MAX_WRITE_AGE: u64 = 15;

/// What an oracle says before the token's fixed confidence is applied.
pub struct OracleReading {
    /// The average price in canonical USD units.
    pub avg: int,
    /// The half-width of the spread that the oracle's own confidence gives.
    pub base_confidence: int,
    /// Whether the oracle is fresh and sound.
    pub live: bool,
}

/// The number of decimal digits that a stored exponent shifts by: the
/// negation of the signed 32-bit number whose bits are `raw`, where that
/// number is not positive.
pub open spec fn shift_of_exponent(raw: int) -> Option<nat> {
    if raw == 0 {
        Some(0nat)
    } else if raw >= 0x8000_0000 {
        Some((0x1_0000_0000 - raw) as nat)
    } else {
        None
    }
}

/// What a price feed payload says.
///
/// The feed is live unless it is `MAX_SLOT_AGE` slots old or older, its
/// status is not 1, its price is negative, or ten times its confidence
/// exceeds its price. A negative price is read as the unsigned number with
/// the same bits.
pub open spec fn price_feed_reading(data: Seq<u8>, s: TokenSettings, clock: Clock) -> Result<
    OracleReading,
    AmmError,
> {
    if data.len() < 228 {
        Err(AmmError::BlobTooShort)
    } else {
        match shift_of_exponent(u32_at(data, 20) as int) {
            None => Err(AmmError::NumericConversion),
            Some(shift) => {
                let valid_slot = u64_at(data, 40) as int;
                let price = u64_at(data, 208) as int;
                let conf = u64_at(data, 216) as int;
                let status = u32_at(data, 224) as int;
                let scale = pow10(shift) as int;
                let confidence = mul_div_spec(conf, ONE_USD as int, scale);
                Ok(
                    OracleReading {
                        avg: mul_div_spec(price, ONE_USD as int, scale),
                        base_confidence: mul_div_spec(
                            confidence,
                            s.oracle_confidence_pct as int,
                            100,
                        ),
                        live: !(clock.slot >= valid_slot + 50 || status != 1 || price
                            >= 0x8000_0000_0000_0000 || 10 * conf > price),
                    },
                )
            },
        }
    }
}

/// What an aggregator payload says at the token's index.
///
/// The price is live unless it was written more than `MAX_WRITE_AGE`
/// seconds ago. The average is the stored price less the confidence.
pub open spec fn aggregator_reading(data: Seq<u8>, s: TokenSettings, clock: Clock) -> Result<
    OracleReading,
    AmmError,
> {
    let start = 9 + 8 * s.oracle_index;
    if data.len() < start + 408 {
        Err(AmmError::BlobTooShort)
    } else {
        let mantissa = u64_at(data, start) as int;
        let written = u64_at(data, start + 400) as int;
        let base_confidence = mul_div_spec(mantissa, s.oracle_confidence_pct as int, 10000);
        Ok(
            OracleReading {
                avg: mantissa - base_confidence,
                base_confidence,
                live: !(clock.unix_timestamp > written + 15),
            },
        )
    }
}

/// The price triplet that a reading gives for a token: the average, and the
/// average less and plus the oracle's confidence and the token's own.
pub open spec fn finalized_price(reading: OracleReading, s: TokenSettings) -> Result<
    OraclePrice,
    AmmError,
> {
    let extra = mul_div_spec(reading.avg, s.fixed_confidence_bps as int, 10000);
    let sell = reading.avg - reading.base_confidence - extra;
    let buy = reading.avg + reading.base_confidence + extra;
    if sell < 0 || buy > u64::MAX {
        Err(AmmError::ArithmeticOverflow)
    } else {
        Ok(
            OraclePrice {
                sell_price: sell as u64,
                avg_price: reading.avg as u64,
                buy_price: buy as u64,
                oracle_live: if reading.live {
                    1u8
                } else {
                    0u8
                },
            },
        )
    }
}

/// The price of a token as its oracle payload gives it at a given time.
pub open spec fn oracle_price_spec(data: Seq<u8>, s: TokenSettings, clock: Clock) -> Result<
    OraclePrice,
    AmmError,
> {
    let reading = if s.oracle_type == ORACLE_PRICE_FEED {
        price_feed_reading(data, s, clock)
    } else if s.oracle_type == ORACLE_AGGREGATOR {
        aggregator_reading(data, s, clock)
    } else {
        Err(AmmError::UnknownVariant)
    };
    match reading {
        Ok(reading) => finalized_price(reading, s),
        Err(e) => Err(e),
    }
}

impl OraclePrice {
    /// The sell price does not exceed the average, nor the average the buy price.
    pub open spec fn ordered(self) -> bool {
        self.sell_price <= self.avg_price <= self.buy_price
    }
}

/// A decoded price is ordered: sell, average, buy.
pub proof fn lemma_oracle_price_ordered(data: Seq<u8>, s: TokenSettings, clock: Clock)
    ensures
        oracle_price_spec(data, s, clock) matches Ok(p) ==> p.ordered(),
{
    if s.oracle_type == ORACLE_PRICE_FEED {
        if let Ok(reading) = price_feed_reading(data, s, clock) {
            let shift = shift_of_exponent(u32_at(data, 20) as int).unwrap();
            lemma_pow10_increases(0, shift);
            let scale = pow10(shift) as int;
            lemma_mul_div_range(u64_at(data, 208) as int, ONE_USD as int, scale);
            lemma_mul_div_range(u64_at(data, 216) as int, ONE_USD as int, scale);
            lemma_mul_div_range(
                mul_div_spec(u64_at(data, 216) as int, ONE_USD as int, scale),
                s.oracle_confidence_pct as int,
                100,
            );
            lemma_mul_div_range(reading.avg, s.fixed_confidence_bps as int, 10000);
        }
    } else if s.oracle_type == ORACLE_AGGREGATOR {
        if let Ok(reading) = aggregator_reading(data, s, clock) {
            let start = 9 + 8 * s.oracle_index;
            let mantissa = u64_at(data, start) as int;
            lemma_le_value_fits(data.subrange(start, start + 8));
            lemma_mul_div_share(mantissa, s.oracle_confidence_pct as int, 10000);
            lemma_mul_div_range(reading.avg, s.fixed_confidence_bps as int, 10000);
        }
    }
}

/// Reads a price feed payload.
fn read_price_feed(data: &Vec<u8>, s: &TokenSettings, clock: &Clock) -> (r: Result<
    (u64, u64, bool),
    AmmError,
>)
    ensures
        match (r, price_feed_reading(data@, *s, *clock)) {
            (Ok(x), Ok(reading)) => x.0 == reading.avg && x.1 == reading.base_confidence && x.2
                == reading.live,
            (Err(e), Err(f)) => e == f,
            _ => false,
        },
{
    if data.len() < PRICE_FEED_LEN {
        return Err(AmmError::BlobTooShort);
    }
    let raw_exponent = read_u32(data, 20)?;
    if 0 < raw_exponent && raw_exponent < 0x8000_0000 {
        return Err(AmmError::NumericConversion);
    }
    let shift: u32 = if raw_exponent == 0 {
        0
    } else {
        ((0x1_0000_0000u64 - raw_exponent as u64) as u32)
    };
    let valid_slot = read_u64(data, 40)?;
    let price = read_u64(data, 208)?;
    let conf = read_u64(data, 216)?;
    let status = read_u32(data, 224)?;
    let mut live = true;
    if clock.slot as u128 >= valid_slot as u128 + MAX_SLOT_AGE as u128 {
        live = false;
    }
    if status != 1 {
        live = false;
    }
    if price >= 0x8000_0000_0000_0000 {
        live = false;
    }
    if conf as u128 * 10 > price as u128 {
        live = false;
    }
    let avg = mul_div_pow10(price, ONE_USD, shift);
    let confidence = mul_div_pow10(conf, ONE_USD, shift);
    let base_confidence = mul_div(confidence, s.oracle_confidence_pct as u64, 100);
    Ok((avg, base_confidence, live))
}

/// Reads an aggregator payload at the token's index.
fn read_aggregator(data: &Vec<u8>, s: &TokenSettings, clock: &Clock) -> (r: Result<
    (u64, u64, bool),
    AmmError,
>)
    ensures
        match (r, aggregator_reading(data@, *s, *clock)) {
            (Ok(x), Ok(reading)) => x.0 == reading.avg && x.1 == reading.base_confidence && x.2
                == reading.live,
            (Err(e), Err(f)) => e == f,
            _ => false,
        },
{
    let start: usize = 9 + 8 * (s.oracle_index as usize);
    if data.len() < start + 408 {
        return Err(AmmError::BlobTooShort);
    }
    let mantissa = read_u64(data, start)?;
    let written = read_u64(data, start + 400)?;
    let live = !(clock.unix_timestamp as u128 > written as u128 + MAX_WRITE_AGE as u128);
    let base_confidence = mul_div(mantissa, s.oracle_confidence_pct as u64, BPS_DIVIDER);
    proof {
        lemma_mul_div_share(mantissa as int, s.oracle_confidence_pct as int, 10000);
    }
    Ok((mantissa - base_confidence, base_confidence, live))
}

impl OraclePrice {
    /// Decodes the oracle payload of a token as read at the time `clock`.
    ///
    /// Fails with `UnknownVariant` on an oracle kind other than 0 and 1,
    /// with `BlobTooShort` on a payload that ends before a field of that
    /// kind, with `NumericConversion` on a positive price exponent, and
    /// with `ArithmeticOverflow` where the sell price would be negative or
    /// the buy price would exceed 64 bits.
    pub fn load(account_data: &Vec<u8>, token_settings: TokenSettings, clock: Clock) -> (r: Result<
        OraclePrice,
        AmmError,
    >)
        ensures
            r == oracle_price_spec(account_data@, token_settings, clock),
            r matches Ok(p) ==> p.ordered(),
    {
        proof {
            lemma_oracle_price_ordered(account_data@, token_settings, clock);
        }
        let (avg, base_confidence, live) = if token_settings.oracle_type == ORACLE_PRICE_FEED {
            read_price_feed(account_data, &token_settings, &clock)?
        } else if token_settings.oracle_type == ORACLE_AGGREGATOR {
            read_aggregator(account_data, &token_settings, &clock)?
        } else {
            return Err(AmmError::UnknownVariant);
        };
        let extra = mul_div(avg, token_settings.fixed_confidence_bps as u64, BPS_DIVIDER);
        let spread: u128 = base_confidence as u128 + extra as u128;
        if spread > avg as u128 || avg as u128 + spread > u64::MAX as u128 {
            return Err(AmmError::ArithmeticOverflow);
        }
        Ok(
            OraclePrice {
                sell_price: avg - base_confidence - extra,
                avg_price: avg,
                buy_price: avg + base_confidence + extra,
                oracle_live: if live {
                    1
                } else {
                    0
                },
            },
        )
    }
}

} // verus!
