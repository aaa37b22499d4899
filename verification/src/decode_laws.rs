//! Laws of the decoders: a payload fixes the record that is decoded from
//! it, and every byte of a field is read.

use crate::accounts::{CurveData, FundState, TokenList, TokenPriceData, TokenSettings};
use crate::address::{lemma_address_equal, Address};
use crate::wire::{lemma_perturbed_field_differs, u64_at};
use vstd::prelude::*;

verus! {

/// Two addresses read from ranges that differ in one byte are different.
pub proof fn lemma_address_field_differs(
    a: Address,
    b: Address,
    d1: Seq<u8>,
    d2: Seq<u8>,
    offset: int,
    at: int,
)
    requires
        0 <= offset <= at < offset + 32,
        offset + 32 <= d1.len(),
        offset + 32 <= d2.len(),
        a@ == d1.subrange(offset, offset + 32),
        b@ == d2.subrange(offset, offset + 32),
        d1[at] != d2[at],
    ensures
        a != b,
{
    assert(a@[at - offset] == d1[at]);
    assert(b@[at - offset] == d2[at]);
}

/// A fund state payload fixes the fund state: two records decoded from the
/// same payload are the same.
pub proof fn lemma_fund_state_unique(data: Seq<u8>, a: FundState, b: FundState)
    requires
        a.decoded_from(data),
        b.decoded_from(data),
    ensures
        a == b,
{
    lemma_address_equal(a.manager, b.manager);
    lemma_address_equal(a.host_pubkey, b.host_pubkey);
    assert(a.current_comp_token =~= b.current_comp_token);
    assert(a.current_comp_amount =~= b.current_comp_amount);
    assert(a.target_weight =~= b.target_weight);
}

/// Every byte of every field of a fund state payload is read: two payloads
/// that differ in a byte of a field decode to records that differ in that
/// field.
pub proof fn lemma_fund_state_reads_every_byte(
    d1: Seq<u8>,
    d2: Seq<u8>,
    a: FundState,
    b: FundState,
    at: int,
)
    requires
        a.decoded_from(d1),
        b.decoded_from(d2),
        d1.len() == d2.len(),
        0 <= at < 1048,
        d1[at] != d2[at],
    ensures
        16 <= at < 48 ==> a.manager != b.manager,
        128 <= at < 160 ==> a.host_pubkey != b.host_pubkey,
        168 <= at < 176 ==> a.num_of_tokens != b.num_of_tokens,
        176 <= at < 336 ==> a.current_comp_token[(at - 176) / 8] != b.current_comp_token[(at
            - 176) / 8],
        336 <= at < 496 ==> a.current_comp_amount[(at - 336) / 8] != b.current_comp_amount[(at
            - 336) / 8],
        656 <= at < 816 ==> a.target_weight[(at - 656) / 8] != b.target_weight[(at - 656) / 8],
        816 <= at < 824 ==> a.weight_sum != b.weight_sum,
        1024 <= at < 1032 ==> a.rebalance_threshold != b.rebalance_threshold,
        1040 <= at < 1048 ==> a.lp_offset_threshold != b.lp_offset_threshold,
{
    if 16 <= at < 48 {
        lemma_address_field_differs(a.manager, b.manager, d1, d2, 16, at);
    }
    if 128 <= at < 160 {
        lemma_address_field_differs(a.host_pubkey, b.host_pubkey, d1, d2, 128, at);
    }
    if 168 <= at < 176 {
        lemma_perturbed_field_differs(d1, d2, 168, at);
    }
    if 176 <= at < 336 {
        let i = (at - 176) / 8;
        lemma_perturbed_field_differs(d1, d2, 176 + 8 * i, at);
        assert(a.current_comp_token[i] == u64_at(d1, 176 + 8 * i));
        assert(b.current_comp_token[i] == u64_at(d2, 176 + 8 * i));
    }
    if 336 <= at < 496 {
        let i = (at - 336) / 8;
        lemma_perturbed_field_differs(d1, d2, 336 + 8 * i, at);
        assert(a.current_comp_amount[i] == u64_at(d1, 336 + 8 * i));
        assert(b.current_comp_amount[i] == u64_at(d2, 336 + 8 * i));
    }
    if 656 <= at < 816 {
        let i = (at - 656) / 8;
        lemma_perturbed_field_differs(d1, d2, 656 + 8 * i, at);
        assert(a.target_weight[i] == u64_at(d1, 656 + 8 * i));
        assert(b.target_weight[i] == u64_at(d2, 656 + 8 * i));
    }
    if 816 <= at < 824 {
        lemma_perturbed_field_differs(d1, d2, 816, at);
    }
    if 1024 <= at < 1032 {
        lemma_perturbed_field_differs(d1, d2, 1024, at);
    }
    if 1040 <= at < 1048 {
        lemma_perturbed_field_differs(d1, d2, 1040, at);
    }
}

/// Every byte of every field of a catalog entry is read: two entries
/// decoded from 199 bytes that differ in a byte of a field differ in that
/// field. The bytes 33 to 62 belong to no field.
pub proof fn lemma_token_settings_reads_every_byte(
    e1: Seq<u8>,
    e2: Seq<u8>,
    a: TokenSettings,
    b: TokenSettings,
    at: int,
)
    requires
        a.decoded_from(e1),
        b.decoded_from(e2),
        0 <= at < 199,
        e1[at] != e2[at],
    ensures
        0 <= at < 32 ==> a.token_mint != b.token_mint,
        at == 32 ==> a.decimals != b.decimals,
        63 <= at < 95 ==> a.pda_token_account != b.pda_token_account,
        at == 95 ==> a.oracle_type != b.oracle_type,
        96 <= at < 128 ==> a.oracle_account != b.oracle_account,
        at == 128 ==> a.oracle_index != b.oracle_index,
        at == 129 ==> a.oracle_confidence_pct != b.oracle_confidence_pct,
        at == 130 ==> a.fixed_confidence_bps != b.fixed_confidence_bps,
        at == 131 ==> a.token_swap_fee_after_tw_bps != b.token_swap_fee_after_tw_bps,
        at == 132 ==> a.token_swap_fee_before_tw_bps != b.token_swap_fee_before_tw_bps,
        at == 133 ==> a.is_live != b.is_live,
        at == 134 ==> a.lp_on != b.lp_on,
        at == 135 ==> a.use_curve_data != b.use_curve_data,
        136 <= at < 199 ==> a.additional_data[at - 136] != b.additional_data[at - 136],
{
    if 0 <= at < 32 {
        lemma_address_field_differs(a.token_mint, b.token_mint, e1, e2, 0, at);
    }
    if 63 <= at < 95 {
        lemma_address_field_differs(a.pda_token_account, b.pda_token_account, e1, e2, 63, at);
    }
    if 96 <= at < 128 {
        lemma_address_field_differs(a.oracle_account, b.oracle_account, e1, e2, 96, at);
    }
    if 136 <= at < 199 {
        assert(a.additional_data@[at - 136] == e1.subrange(136, 199)[at - 136]);
        assert(b.additional_data@[at - 136] == e2.subrange(136, 199)[at - 136]);
    }
}

/// Every byte of one side of a token's curve is read: two payloads that
/// differ in a byte of the 160 bytes from `base` on decode to sides that
/// differ in the amount or the price that the byte belongs to.
pub proof fn lemma_curve_side_reads_every_byte(
    d1: Seq<u8>,
    d2: Seq<u8>,
    a: TokenPriceData,
    b: TokenPriceData,
    base: int,
    at: int,
)
    requires
        a.decoded_from(d1, base),
        b.decoded_from(d2, base),
        d1.len() == d2.len(),
        0 <= base <= at < base + 160,
        base + 160 <= d1.len(),
        d1[at] != d2[at],
    ensures
        at < base + 80 ==> a.amount[(at - base) / 8] != b.amount[(at - base) / 8],
        at >= base + 80 ==> a.price[(at - base - 80) / 8] != b.price[(at - base - 80) / 8],
{
    if at < base + 80 {
        let j = (at - base) / 8;
        lemma_perturbed_field_differs(d1, d2, base + 8 * j, at);
        assert(a.amount[j] == u64_at(d1, base + 8 * j));
        assert(b.amount[j] == u64_at(d2, base + 8 * j));
    } else {
        let j = (at - base - 80) / 8;
        lemma_perturbed_field_differs(d1, d2, base + 80 + 8 * j, at);
        assert(a.price[j] == u64_at(d1, base + 80 + 8 * j));
        assert(b.price[j] == u64_at(d2, base + 80 + 8 * j));
    }
}

/// A curve dataset payload fixes the curve dataset.
pub proof fn lemma_curve_data_unique(data: Seq<u8>, a: CurveData, b: CurveData)
    requires
        a.decoded_from(data),
        b.decoded_from(data),
    ensures
        a == b,
{
    assert forall|i: int| 0 <= i < 100 implies a.buy[i] == b.buy[i] by {
        assert(a.buy[i].decoded_from(data, 8 + 160 * i));
        assert(b.buy[i].decoded_from(data, 8 + 160 * i));
        assert(a.buy[i].amount =~= b.buy[i].amount);
        assert(a.buy[i].price =~= b.buy[i].price);
    }
    assert forall|i: int| 0 <= i < 100 implies a.sell[i] == b.sell[i] by {
        assert(a.sell[i].decoded_from(data, 32008 + 160 * i));
        assert(b.sell[i].decoded_from(data, 32008 + 160 * i));
        assert(a.sell[i].amount =~= b.sell[i].amount);
        assert(a.sell[i].price =~= b.sell[i].price);
    }
    assert(a.buy =~= b.buy);
    assert(a.sell =~= b.sell);
}

/// Two unused addresses are the same address.
pub proof fn lemma_default_address_unique(a: Address, b: Address)
    requires
        a.is_default(),
        b.is_default(),
    ensures
        a == b,
{
    lemma_address_equal(a, b);
    assert(a@ =~= b@);
}

/// The 199 bytes of a catalog entry fix the entry.
pub proof fn lemma_token_settings_unique(entry: Seq<u8>, a: TokenSettings, b: TokenSettings)
    requires
        a.decoded_from(entry),
        b.decoded_from(entry),
    ensures
        a == b,
{
    lemma_address_equal(a.token_mint, b.token_mint);
    lemma_address_equal(a.pda_token_account, b.pda_token_account);
    lemma_address_equal(a.oracle_account, b.oracle_account);
    assert(a.additional_data =~= b.additional_data);
}

/// A token catalog payload fixes the catalog.
pub proof fn lemma_token_list_unique(data: Seq<u8>, a: TokenList, b: TokenList)
    requires
        a.decoded_from(data),
        b.decoded_from(data),
    ensures
        a == b,
{
    assert forall|i: int| 0 <= i < 100 implies a.list[i] == b.list[i] by {
        if i < a.num_tokens {
            lemma_token_settings_unique(
                data.subrange(16 + 199 * i, 16 + 199 * (i + 1)),
                a.list[i],
                b.list[i],
            );
        } else {
            let x = a.list[i];
            let y = b.list[i];
            assert(x.is_empty() && y.is_empty());
            lemma_default_address_unique(x.token_mint, y.token_mint);
            lemma_default_address_unique(x.pda_token_account, y.pda_token_account);
            lemma_default_address_unique(x.oracle_account, y.oracle_account);
            assert(x.additional_data =~= y.additional_data);
        }
    }
    assert(a.list =~= b.list);
}

} // verus!
