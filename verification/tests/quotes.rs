use rust_decimal::Decimal;
use symmetry_swap::address::Address;
use symmetry_swap::amm::{Clock, KeyedAccount, QuoteParams};
use symmetry_swap::error::AmmError;
use symmetry_swap::quote::split_fee;
use symmetry_swap::symmetry_token_swap::SymmetryTokenSwap;

fn addr(tag: u8) -> Address {
    Address::new([tag; 32])
}

fn put_u64(blob: &mut Vec<u8>, offset: usize, value: u64) {
    blob[offset..offset + 8].copy_from_slice(&value.to_le_bytes());
}

fn put_address(blob: &mut Vec<u8>, offset: usize, address: &Address) {
    blob[offset..offset + 32].copy_from_slice(&address.to_bytes());
}

#[derive(Clone, Copy)]
struct Entry {
    mint: Address,
    decimals: u8,
    custody: Address,
    oracle_type: u8,
    oracle: Address,
    oracle_index: u8,
    confidence_pct: u8,
    fixed_bps: u8,
    fee_after: u8,
    fee_before: u8,
    is_live: u8,
    lp_on: u8,
    use_curve: u8,
    shares: [u8; 3],
}

fn entry(tag: u8, decimals: u8, oracle_index: u8) -> Entry {
    Entry {
        mint: addr(tag),
        decimals,
        custody: addr(tag + 100),
        oracle_type: 1,
        oracle: addr(200),
        oracle_index,
        confidence_pct: 0,
        fixed_bps: 0,
        fee_after: 0,
        fee_before: 0,
        is_live: 1,
        lp_on: 1,
        use_curve: 0,
        shares: [0, 0, 0],
    }
}

fn entry_bytes(e: &Entry) -> Vec<u8> {
    let mut bytes = vec![0u8; 199];
    put_address(&mut bytes, 0, &e.mint);
    bytes[32] = e.decimals;
    put_address(&mut bytes, 63, &e.custody);
    bytes[95] = e.oracle_type;
    put_address(&mut bytes, 96, &e.oracle);
    bytes[128] = e.oracle_index;
    bytes[129] = e.confidence_pct;
    bytes[130] = e.fixed_bps;
    bytes[131] = e.fee_after;
    bytes[132] = e.fee_before;
    bytes[133] = e.is_live;
    bytes[134] = e.lp_on;
    bytes[135] = e.use_curve;
    bytes[196] = e.shares[0];
    bytes[197] = e.shares[1];
    bytes[198] = e.shares[2];
    bytes
}

fn catalog_blob(entries: &[Entry]) -> Vec<u8> {
    let mut blob = vec![0u8; 16];
    put_u64(&mut blob, 8, entries.len() as u64);
    for e in entries {
        blob.extend_from_slice(&entry_bytes(e));
    }
    blob
}

/// Holdings are given as (catalog position, amount, target weight).
fn fund_blob(holdings: &[(u64, u64, u64)], weight_sum: u64, rebalance: u64, lp_offset: u64) -> Vec<u8> {
    let mut blob = vec![0u8; 1048];
    put_address(&mut blob, 16, &addr(91));
    put_address(&mut blob, 128, &addr(92));
    put_u64(&mut blob, 168, holdings.len() as u64);
    for (i, (token, amount, weight)) in holdings.iter().enumerate() {
        put_u64(&mut blob, 176 + 8 * i, *token);
        put_u64(&mut blob, 336 + 8 * i, *amount);
        put_u64(&mut blob, 656 + 8 * i, *weight);
    }
    put_u64(&mut blob, 816, weight_sum);
    put_u64(&mut blob, 1024, rebalance);
    put_u64(&mut blob, 1040, lp_offset);
    blob
}

/// Curve sides are given as (buy side?, catalog position, amounts, prices).
fn curve_blob(sides: &[(bool, usize, [u64; 10], [u64; 10])]) -> Vec<u8> {
    let mut blob = vec![0u8; 48008];
    for (buy, token, amounts, prices) in sides {
        let base = if *buy { 8 } else { 32008 } + 160 * token;
        for j in 0..10 {
            put_u64(&mut blob, base + 8 * j, amounts[j]);
            put_u64(&mut blob, base + 80 + 8 * j, prices[j]);
        }
    }
    blob
}

/// Aggregator prices are given as (index, price, time of writing).
fn aggregator_blob(prices: &[(u8, u64, u64)]) -> Vec<u8> {
    let mut blob = vec![0u8; 9 + 8 * 256 + 400];
    for (index, price, written) in prices {
        put_u64(&mut blob, 9 + 8 * (*index as usize), *price);
        put_u64(&mut blob, 409 + 8 * (*index as usize), *written);
    }
    blob
}

fn feed_blob(expo: i32, price: i64, conf: u64, status: u32, valid_slot: u64) -> Vec<u8> {
    let mut blob = vec![0u8; 228];
    blob[20..24].copy_from_slice(&expo.to_le_bytes());
    put_u64(&mut blob, 40, valid_slot);
    blob[208..216].copy_from_slice(&price.to_le_bytes());
    put_u64(&mut blob, 216, conf);
    blob[224..228].copy_from_slice(&status.to_le_bytes());
    blob
}

const NOW: Clock = Clock { slot: 1_000, unix_timestamp: 1_700_000_000 };
const ONE_USD: u64 = 1_000_000_000_000;

fn fund_key() -> Address {
    addr(90)
}

fn adapter(
    entries: &[Entry],
    holdings: &[(u64, u64, u64)],
    bands: (u64, u64),
    curves: &[(bool, usize, [u64; 10], [u64; 10])],
    prices: &[(u8, u64, u64)],
    more: &[KeyedAccount],
) -> SymmetryTokenSwap {
    let fund = KeyedAccount { key: fund_key(), data: fund_blob(holdings, 10000, bands.0, bands.1) };
    let catalog = KeyedAccount { key: Address::token_list(), data: catalog_blob(entries) };
    let mut swap = SymmetryTokenSwap::from_keyed_account(&fund, &catalog).unwrap();
    let mut accounts = vec![
        KeyedAccount { key: Address::curve_data(), data: curve_blob(curves) },
        fund,
        KeyedAccount { key: addr(200), data: aggregator_blob(prices) },
    ];
    accounts.extend_from_slice(more);
    swap.update(&accounts, NOW).unwrap();
    swap
}

fn usd_and_sol() -> Vec<Entry> {
    vec![entry(1, 6, 0), entry(2, 9, 1)]
}

fn usd_and_sol_prices() -> Vec<(u8, u64, u64)> {
    vec![(0, ONE_USD, NOW.unix_timestamp), (1, 100 * ONE_USD, NOW.unix_timestamp)]
}

fn request(from: u8, amount: u64, to: u8) -> QuoteParams {
    QuoteParams { input_mint: addr(from), in_amount: amount, output_mint: addr(to) }
}

fn plain_fund(usd_held: u64, bands: (u64, u64)) -> SymmetryTokenSwap {
    adapter(
        &usd_and_sol(),
        &[(0, usd_held, 5000), (1, 5_000_000_000, 5000)],
        bands,
        &[],
        &usd_and_sol_prices(),
        &[],
    )
}

#[test]
fn quote_usd_for_sol_without_curve() {
    let swap = plain_fund(1_000_000_000, (10000, 5000));
    let quote = swap.quote(&request(1, 100_000_000, 2)).unwrap();
    assert_eq!(quote.in_amount, 100_000_000);
    assert_eq!(quote.out_amount, 1_000_000_000);
    assert_eq!(quote.fee_amount, 0);
    assert_eq!(quote.fee_mint, addr(2));
    assert_eq!(quote.fee_pct, Decimal::new(0, 4));
    assert_eq!(quote.price_impact_pct, Decimal::new(0, 4));
    assert!(!quote.not_enough_liquidity);
}

#[test]
fn quote_sol_for_usd_without_curve() {
    let swap = plain_fund(1_000_000_000, (10000, 5000));
    let figures = swap.quote_figures(&request(2, 1_000_000_000, 1)).unwrap();
    assert_eq!(figures.out_amount, 100_000_000);
    assert_eq!(figures.fee_amount, 0);
    assert!(!figures.not_enough_liquidity);
}

#[test]
fn fund_worth_is_the_sum_of_the_holdings() {
    let swap = plain_fund(1_000_000_000, (10000, 5000));
    // 1000 USD and 5 SOL at 100 USD.
    assert_eq!(swap.fund_worth(), Ok(1_500_000_000_000_000));
    let mut expected = 0u64;
    let fund = swap.fund_state();
    let catalog = swap.token_list();
    for i in 0..fund.num_of_tokens as usize {
        let token = catalog.list[fund.current_comp_token[i] as usize];
        expected += SymmetryTokenSwap::amount_to_usd_value(
            fund.current_comp_amount[i],
            token.decimals,
            token.oracle_price.avg_price,
        );
    }
    assert_eq!(swap.fund_worth(), Ok(expected));
}

#[test]
fn fund_worth_shows_a_wrong_decimal_count() {
    let mut entries = usd_and_sol();
    entries[1].decimals = 10;
    let swap = adapter(
        &entries,
        &[(0, 1_000_000_000, 5000), (1, 5_000_000_000, 5000)],
        (10000, 5000),
        &[],
        &usd_and_sol_prices(),
        &[],
    );
    // The SOL holding counts a tenth: 1000 USD and 50 USD.
    assert_eq!(swap.fund_worth(), Ok(1_050_000_000_000_000));
}

#[test]
fn fund_worth_overflow_is_an_error() {
    let swap = adapter(
        &usd_and_sol(),
        &[(0, u64::MAX, 5000), (1, u64::MAX, 5000)],
        (10000, 5000),
        &[],
        &usd_and_sol_prices(),
        &[],
    );
    assert_eq!(swap.fund_worth(), Err(AmmError::ArithmeticOverflow));
    assert_eq!(swap.quote(&request(1, 1, 2)), Err(AmmError::ArithmeticOverflow));
}

#[test]
fn quote_through_a_curve_segment() {
    let mut entries = usd_and_sol();
    entries[0].shares = [5, 20, 20];
    entries[1].fixed_bps = 10;
    entries[1].use_curve = 1;
    let buy = 100_100_000_000_000u64;
    let amounts = [750_000_000, 250_000_000, 0, 0, 0, 0, 0, 0, 0, 0];
    let prices = [buy, buy / 100 * 101, 0, 0, 0, 0, 0, 0, 0, 0];
    let swap = adapter(
        &entries,
        &[(0, 500_000_000, 5000), (1, 5_000_000_000, 5000)],
        (10000, 5000),
        &[(true, 1, amounts, prices)],
        &usd_and_sol_prices(),
        &[],
    );
    let quote = swap.quote(&request(1, 100_000_000, 2)).unwrap();
    let fair_amount = 1_000_000_000;
    assert_eq!(quote.out_amount, 996_535_642);
    assert!(quote.out_amount < fair_amount);
    assert_eq!(quote.fee_amount, 2_465_357);
    assert_eq!(quote.fee_pct, Decimal::new(2465, 4));
    assert_eq!(quote.fee_pct.to_string(), "0.2465");
    assert_eq!(quote.price_impact_pct, Decimal::new(999, 4));
    assert!(quote.price_impact_pct > Decimal::ZERO);
    assert!(!quote.not_enough_liquidity);
}

#[test]
fn curve_is_ignored_where_the_token_disables_it() {
    let mut entries = usd_and_sol();
    entries[1].fixed_bps = 10;
    let buy = 100_100_000_000_000u64;
    let amounts = [750_000_000, 250_000_000, 0, 0, 0, 0, 0, 0, 0, 0];
    let prices = [buy, buy / 100 * 101, 0, 0, 0, 0, 0, 0, 0, 0];
    let swap = adapter(
        &entries,
        &[(0, 500_000_000, 5000), (1, 5_000_000_000, 5000)],
        (10000, 5000),
        &[(true, 1, amounts, prices)],
        &usd_and_sol_prices(),
        &[],
    );
    let figures = swap.quote_figures(&request(1, 100_000_000, 2)).unwrap();
    assert_eq!(figures.out_amount, 999_000_999);
    assert_eq!(figures.fee_amount, 0);
    assert_eq!(figures.price_impact_bps, 999);
}

#[test]
fn quote_charges_the_fees_of_both_legs() {
    let mut entries = usd_and_sol();
    entries[0].shares = [5, 20, 20];
    entries[0].fee_before = 5;
    entries[0].fee_after = 7;
    entries[1].fee_before = 10;
    entries[1].fee_after = 30;
    let swap = adapter(
        &entries,
        &[(0, 500_000_000, 5000), (1, 5_000_000_000, 5000)],
        (10000, 5000),
        &[],
        &usd_and_sol_prices(),
        &[],
    );
    let sold = swap.quote_figures(&request(2, 1_000_000_000, 1)).unwrap();
    assert_eq!(sold.out_amount, 99_630_210);
    assert_eq!(sold.fee_amount, 369_790);
    assert_eq!(sold.fee_bps, 3697);
    assert_eq!(sold.price_impact_bps, 0);
    let bought = swap.quote_figures(&request(1, 100_000_000, 2)).unwrap();
    assert_eq!(bought.out_amount, 996_302_100);
    assert_eq!(bought.fee_amount, 3_697_900);
    assert_eq!(bought.fee_bps, 3697);
}

#[test]
fn quote_just_outside_the_weight_band_is_refused_softly() {
    // At target, with a band of a tenth of the target weight.
    let swap = plain_fund(500_000_000, (1000, 10000));
    let refused = swap.quote(&request(1, 50_000_001, 2)).unwrap();
    assert_eq!(refused.out_amount, 0);
    assert!(refused.not_enough_liquidity);
    assert_eq!(refused.in_amount, 50_000_001);
    assert_eq!(refused.fee_amount, 0);
    assert_eq!(refused.fee_mint, addr(2));
    let accepted = swap.quote(&request(1, 50_000_000, 2)).unwrap();
    assert_eq!(accepted.out_amount, 500_000_000);
    assert!(accepted.out_amount > 0);
    assert!(!accepted.not_enough_liquidity);
}

#[test]
fn quote_fails_on_an_oracle_with_a_bad_status() {
    let mut entries = usd_and_sol();
    entries[1].oracle_type = 0;
    entries[1].oracle = addr(201);
    let holdings = [(0, 1_000_000_000, 5000), (1, 5_000_000_000, 5000)];
    let good = KeyedAccount { key: addr(201), data: feed_blob(-8, 10_000_000_000, 0, 1, 990) };
    let live = adapter(&entries, &holdings, (10000, 5000), &[], &usd_and_sol_prices(), &[good]);
    assert_eq!(live.quote_figures(&request(1, 100_000_000, 2)).unwrap().out_amount, 1_000_000_000);
    let bad = KeyedAccount { key: addr(201), data: feed_blob(-8, 10_000_000_000, 0, 2, 990) };
    let stale = adapter(&entries, &holdings, (10000, 5000), &[], &usd_and_sol_prices(), &[bad]);
    assert_eq!(stale.quote(&request(1, 100_000_000, 2)), Err(AmmError::OracleNotLive));
    assert_eq!(stale.quote(&request(2, 1_000_000_000, 1)), Err(AmmError::OracleNotLive));
    assert_eq!(stale.quote(&request(1, 0, 2)), Err(AmmError::OracleNotLive));
    assert_eq!(stale.fund_worth(), Err(AmmError::OracleNotLive));
}

#[test]
fn quote_fails_on_any_stale_oracle_of_the_composition() {
    let entries = vec![entry(1, 6, 0), entry(2, 9, 1), entry(3, 6, 2)];
    let holdings = [(0, 500_000_000, 4000), (1, 5_000_000_000, 4000), (2, 100_000_000, 2000)];
    let fresh = NOW.unix_timestamp;
    for stale in 0..3u8 {
        let mut prices = vec![(0, ONE_USD, fresh), (1, 100 * ONE_USD, fresh), (2, 2 * ONE_USD, fresh)];
        prices[stale as usize].2 = fresh - 16;
        let swap = adapter(&entries, &holdings, (10000, 5000), &[], &prices, &[]);
        assert_eq!(swap.quote(&request(1, 1_000_000, 2)), Err(AmmError::OracleNotLive));
        assert_eq!(swap.quote(&request(2, 1_000_000, 3)), Err(AmmError::OracleNotLive));
    }
    let prices = vec![(0, ONE_USD, fresh - 15), (1, 100 * ONE_USD, fresh), (2, 2 * ONE_USD, fresh)];
    let swap = adapter(&entries, &holdings, (10000, 5000), &[], &prices, &[]);
    assert!(swap.quote(&request(1, 1_000_000, 2)).is_ok());
}

#[test]
fn quote_ignores_stale_oracles_outside_the_composition() {
    let entries = vec![entry(1, 6, 0), entry(2, 9, 1), entry(3, 6, 2)];
    let holdings = [(0, 1_000_000_000, 5000), (1, 5_000_000_000, 5000)];
    let fresh = NOW.unix_timestamp;
    let prices = vec![(0, ONE_USD, fresh), (1, 100 * ONE_USD, fresh), (2, 2 * ONE_USD, fresh - 100)];
    let swap = adapter(&entries, &holdings, (10000, 5000), &[], &prices, &[]);
    assert_eq!(swap.quote_figures(&request(1, 100_000_000, 2)).unwrap().out_amount, 1_000_000_000);
}

#[test]
fn quote_fails_on_a_mint_outside_the_composition() {
    let mut entries = Vec::new();
    let mut prices = Vec::new();
    let mut holdings = Vec::new();
    for i in 0..21u8 {
        entries.push(entry(i + 1, 6, i));
        prices.push((i, ONE_USD, NOW.unix_timestamp));
    }
    for i in 0..20u64 {
        holdings.push((i, 100_000_000, 500));
    }
    let swap = adapter(&entries, &holdings, (10000, 5000), &[], &prices, &[]);
    assert_eq!(swap.get_reserve_mints().len(), 20);
    // Mint 21 is in the catalog, but the fund does not hold it.
    assert_eq!(swap.quote(&request(1, 1_000_000, 21)), Err(AmmError::UnresolvableMint));
    assert_eq!(swap.quote(&request(21, 1_000_000, 1)), Err(AmmError::UnresolvableMint));
    // Mint 99 is not in the catalog at all.
    assert_eq!(swap.quote(&request(1, 1_000_000, 99)), Err(AmmError::UnresolvableMint));
    assert_eq!(swap.quote(&request(99, 1_000_000, 1)), Err(AmmError::UnresolvableMint));
    assert_eq!(swap.quote_figures(&request(1, 1_000_000, 20)).unwrap().out_amount, 1_000_000);
}

#[test]
fn quote_lets_the_numeraire_remove_dust() {
    let entries = vec![entry(1, 6, 0), entry(2, 9, 1), entry(3, 6, 2)];
    let fresh = NOW.unix_timestamp;
    let prices = vec![(0, ONE_USD, fresh), (1, 100 * ONE_USD, fresh), (2, 2 * ONE_USD, fresh)];
    let holdings = [(0, 600_000_000, 5000), (1, 4_000_000_000, 5000), (2, 50_000_000, 0)];
    let swap = adapter(&entries, &holdings, (100, 100), &[], &prices, &[]);
    // The numeraire is above its band already; buying out a token without
    // target weight is allowed all the same.
    let dust = swap.quote_figures(&request(1, 20_000_000, 3)).unwrap();
    assert_eq!(dust.out_amount, 10_000_000);
    assert!(!dust.not_enough_liquidity);
    // Buying a token with a target weight is not.
    let other = swap.quote_figures(&request(1, 20_000_000, 2)).unwrap();
    assert_eq!(other.out_amount, 0);
    assert!(other.not_enough_liquidity);
    // A token that is inside its band may buy the dust as well.
    let inside = swap.quote_figures(&request(2, 100_000_000, 3)).unwrap();
    assert_eq!(inside.out_amount, 5_000_000);
}

#[test]
fn quote_of_nothing_is_nothing() {
    let mut entries = usd_and_sol();
    entries[1].fixed_bps = 10;
    entries[1].fee_after = 30;
    let swap = adapter(
        &entries,
        &[(0, 500_000_000, 5000), (1, 5_000_000_000, 5000)],
        (10000, 5000),
        &[],
        &usd_and_sol_prices(),
        &[],
    );
    for (from, to) in [(1, 2), (2, 1)] {
        let quote = swap.quote(&request(from, 0, to)).unwrap();
        assert_eq!(quote.in_amount, 0);
        assert_eq!(quote.out_amount, 0);
        assert_eq!(quote.fee_amount, 0);
        assert_eq!(quote.price_impact_pct, Decimal::new(0, 4));
        assert_eq!(quote.fee_pct, Decimal::new(0, 4));
    }
}

#[test]
fn quote_is_capped_by_what_the_fund_holds() {
    let swap = plain_fund(1_000_000_000, (10000, 10000));
    // 600 USD would buy 6 SOL; the fund holds 5.
    let figures = swap.quote_figures(&request(1, 600_000_000, 2)).unwrap();
    assert!(figures.not_enough_liquidity || figures.out_amount <= 5_000_000_000);
}

#[test]
fn quote_grows_with_the_input() {
    let mut entries = usd_and_sol();
    entries[1].fixed_bps = 10;
    entries[1].fee_after = 30;
    entries[1].fee_before = 10;
    let swap = adapter(
        &entries,
        &[(0, 500_000_000, 5000), (1, 4_000_000_000, 5000)],
        (10000, 5000),
        &[],
        &usd_and_sol_prices(),
        &[],
    );
    let mut last = 0;
    for step in 0..200u64 {
        let figures = swap.quote_figures(&request(1, step * 499_999, 2)).unwrap();
        assert!(!figures.not_enough_liquidity);
        assert!(figures.out_amount >= last);
        last = figures.out_amount;
    }
    assert!(last > 0);
}

#[test]
fn quote_impact_of_a_mirrored_swap() {
    let mut entries = vec![entry(1, 6, 0), entry(2, 9, 1), entry(3, 9, 2)];
    for e in entries.iter_mut().skip(1) {
        e.confidence_pct = 50;
        e.fixed_bps = 10;
    }
    let fresh = NOW.unix_timestamp;
    let prices = vec![(0, ONE_USD, fresh), (1, 100 * ONE_USD, fresh), (2, 100 * ONE_USD, fresh)];
    let holdings = [(0, 500_000_000, 3000), (1, 5_000_000_000, 3500), (2, 5_000_000_000, 3500)];
    let swap = adapter(&entries, &holdings, (10000, 5000), &[], &prices, &[]);
    let there = swap.quote_figures(&request(2, 1_000_000_000, 3)).unwrap();
    let back = swap.quote_figures(&request(3, 1_000_000_000, 2)).unwrap();
    assert_eq!(there.price_impact_bps, 11978);
    assert_eq!(back.price_impact_bps, 11978);
    assert_eq!(there.out_amount, 988_021_918);
    assert_eq!(back.out_amount, 988_021_918);
}

#[test]
fn split_fee_loses_nothing() {
    let split = split_fee(2_465_357, 5, 20, 20).unwrap();
    assert_eq!(split.symmetry, 123_267);
    assert_eq!(split.host, 493_071);
    assert_eq!(split.manager, 493_071);
    assert_eq!(split.fund, 1_355_948);
    for total in [0u64, 1, 2, 3, 99, 100, 101, 12_345_678_901, u64::MAX] {
        for shares in [(0u8, 0u8, 0u8), (5, 20, 20), (33, 33, 33), (100, 0, 0), (1, 1, 98)] {
            let split = split_fee(total, shares.0, shares.1, shares.2).unwrap();
            let sum = split.symmetry as u128 + split.host as u128 + split.manager as u128
                + split.fund as u128;
            assert_eq!(sum, total as u128);
        }
    }
}

#[test]
fn split_fee_fails_on_shares_above_the_whole() {
    assert_eq!(split_fee(1000, 50, 50, 1), Err(AmmError::ArithmeticOverflow));
    assert_eq!(split_fee(1000, 255, 0, 0), Err(AmmError::ArithmeticOverflow));
    assert!(split_fee(0, 255, 255, 255).is_ok());
    assert!(split_fee(99, 50, 50, 1).is_ok());
}

#[test]
fn quote_fails_where_the_band_is_wider_than_the_whole() {
    let swap = plain_fund(1_000_000_000, (10001, 10000));
    assert_eq!(swap.quote(&request(1, 1_000_000, 2)), Err(AmmError::ArithmeticOverflow));
    let swap = plain_fund(1_000_000_000, (u64::MAX, u64::MAX));
    assert_eq!(swap.quote(&request(1, 1_000_000, 2)), Err(AmmError::ArithmeticOverflow));
}

#[test]
fn quote_can_fall_where_the_fee_depends_on_the_side_of_the_target() {
    // A coarse token above its target, free before the target and dear after it.
    let mut entries = vec![entry(1, 6, 0), entry(2, 8, 1)];
    entries[1].fee_before = 0;
    entries[1].fee_after = 255;
    let prices = vec![(0, ONE_USD, NOW.unix_timestamp), (1, 60_000 * ONE_USD, NOW.unix_timestamp)];
    let holdings = [(0, 59_999_000_000, 5000), (1, 100_000_000, 5000)];
    let swap = adapter(&entries, &holdings, (10000, 5000), &[], &prices, &[]);
    let smaller = swap.quote_figures(&request(1, 524_399, 2)).unwrap();
    let larger = swap.quote_figures(&request(1, 524_400, 2)).unwrap();
    assert!(!smaller.not_enough_liquidity && !larger.not_enough_liquidity);
    assert_eq!(smaller.out_amount, 873);
    assert_eq!(larger.out_amount, 872);
}

#[test]
fn quote_impact_differs_between_tokens_of_different_spread() {
    let mut entries = vec![entry(1, 6, 0), entry(2, 9, 1), entry(3, 9, 2)];
    entries[1].confidence_pct = 100;
    let fresh = NOW.unix_timestamp;
    let prices = vec![(0, ONE_USD, fresh), (1, 100 * ONE_USD, fresh), (2, 100 * ONE_USD, fresh)];
    let holdings = [(0, 500_000_000, 3000), (1, 5_000_000_000, 3500), (2, 5_000_000_000, 3500)];
    let swap = adapter(&entries, &holdings, (10000, 5000), &[], &prices, &[]);
    // 99 USD of the token with the spread for the flat one, and back.
    let there = swap.quote_figures(&request(2, 1_000_000_000, 3)).unwrap();
    let back = swap.quote_figures(&request(3, 990_000_000, 2)).unwrap();
    assert_eq!(there.price_impact_bps, 10101);
    assert_eq!(back.price_impact_bps, 10000);
}
