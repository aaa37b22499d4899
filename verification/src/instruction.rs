//! The swap instruction: the accounts it takes, in order, and its payload.

use crate::accounts::{FundState, TokenList};
use crate::address::Address;
use crate::amm::{AccountMeta, SwapParams};
use crate::quote::{holding_token, snapshot_valid};
use crate::wire::{le_bytes, lemma_le_bytes_len, push_u64};
use solana_sdk::pubkey::Pubkey;
use vstd::prelude::*;

verus! {

/// Tag of the swap instruction in the fund program.
pub const SYMMETRY_PROGRAM_SWAP_INSTRUCTION_ID: u64 = 219478785678209410;

/// Number of accounts that precede the oracle accounts.
pub const FIXED_ACCOUNTS: usize = 13;

/// The program-derived address for `seeds` under `program`, as
/// `Pubkey::try_find_program_address` finds it: the address of the highest
/// bump seed whose hash is off the curve, or none.
pub uninterp spec fn program_address(seeds: Seq<Seq<u8>>, program: Seq<u8>) -> Option<Seq<u8>>;

/// Calls `Pubkey::try_find_program_address` with three seeds of 32 bytes.
/// It hashes the seeds, a bump seed and the program id, and returns the
/// address for the highest bump seed that gives one, or nothing. The result
/// depends on the seeds and the program id alone, and is named
/// `program_address` of them.
#[verifier::external_body]
pub(crate) fn find_program_address(
    first: &Address,
    second: &Address,
    third: &Address,
    program: &Address,
) -> (r: Option<Address>)
    ensures
        match r {
            Some(a) => program_address(seq![first@, second@, third@], program@) == Some(a@),
            None => program_address(seq![first@, second@, third@], program@) is None,
        },
{
    let id = Pubkey::new_from_array(program.bytes);
    let seeds: [&[u8]; 3] = [&first.bytes, &second.bytes, &third.bytes];
    Pubkey::try_find_program_address(&seeds, &id).map(|found| Address::new(found.0.to_bytes()))
}

/// The associated token account of `owner` for `mint`, where one exists.
pub open spec fn associated_token_address(owner: Address, mint: Address) -> Option<Seq<u8>> {
    program_address(
        seq![owner@, Address::spl_token_program()@, mint@],
        Address::associated_token_program()@,
    )
}

/// Derives the associated token account of `owner` for `mint`.
pub fn derive_associated_token_address(owner: &Address, mint: &Address) -> (r: Option<Address>)
    ensures
        match r {
            Some(a) => associated_token_address(*owner, *mint) == Some(a@),
            None => associated_token_address(*owner, *mint) is None,
        },
{
    let token_program = Address::spl_token_program();
    let program = Address::associated_token_program();
    find_program_address(owner, &token_program, mint, &program)
}

/// The three accounts that receive the fees of a swap.
#[derive(Clone, Copy, Debug, PartialEq, Eq)]
pub struct FeeAccounts {
    /// Token account of the protocol's fee recipient.
    pub swap_fee: Address,
    /// Token account of the fund's host.
    pub host_fee: Address,
    /// Token account of the fund's manager.
    pub manager_fee: Address,
}

/// A writable account.
pub open spec fn writable(pubkey: Address, is_signer: bool) -> AccountMeta {
    AccountMeta { pubkey, is_signer, is_writable: true }
}

/// A read-only account that does not sign.
pub open spec fn readonly(pubkey: Address) -> AccountMeta {
    AccountMeta { pubkey, is_signer: false, is_writable: false }
}

/// The thirteen accounts that every swap takes, in order.
pub open spec fn fixed_accounts(
    key: Address,
    from_custody: Address,
    to_custody: Address,
    params: SwapParams,
    fees: FeeAccounts,
) -> Seq<AccountMeta> {
    seq![
        writable(params.user_transfer_authority, true),
        writable(key, false),
        readonly(Address::fund_authority()),
        writable(from_custody, false),
        writable(params.user_source_token_account, false),
        writable(to_custody, false),
        writable(params.user_destination_token_account, false),
        writable(fees.swap_fee, false),
        writable(fees.host_fee, false),
        writable(fees.manager_fee, false),
        readonly(Address::token_list()),
        readonly(Address::curve_data()),
        readonly(Address::spl_token_program()),
    ]
}

/// The oracle accounts of the first `k` slots of the composition, in order.
pub open spec fn oracle_accounts_of_first(fs: FundState, tl: TokenList, k: int) -> Seq<
    AccountMeta,
>
    decreases k,
{
    if k <= 0 {
        Seq::empty()
    } else {
        oracle_accounts_of_first(fs, tl, k - 1).push(
            readonly(holding_token(fs, tl, k - 1).oracle_account),
        )
    }
}

/// The accounts of a swap from catalog token `from_id` to catalog token
/// `to_id`: the thirteen fixed ones, then the oracle of every slot of the
/// composition, in the order of the slots.
pub open spec fn swap_accounts_spec(
    fs: FundState,
    tl: TokenList,
    key: Address,
    from_id: int,
    to_id: int,
    params: SwapParams,
    fees: FeeAccounts,
) -> Seq<AccountMeta> {
    fixed_accounts(
        key,
        tl.list[from_id].pda_token_account,
        tl.list[to_id].pda_token_account,
        params,
        fees,
    ) + oracle_accounts_of_first(fs, tl, fs.num_of_tokens as int)
}

/// The payload of a swap instruction: five little-endian 64-bit fields,
/// the tag, both catalog positions, the amount, and a minimum output of zero.
pub open spec fn swap_payload(from_id: u64, to_id: u64, in_amount: u64) -> Seq<u8> {
    le_bytes(SYMMETRY_PROGRAM_SWAP_INSTRUCTION_ID as nat, 8) + le_bytes(from_id as nat, 8)
        + le_bytes(to_id as nat, 8) + le_bytes(in_amount as nat, 8) + le_bytes(0, 8)
}

/// As many oracle accounts are listed as slots are counted.
pub proof fn lemma_oracle_accounts_len(fs: FundState, tl: TokenList, k: int)
    requires
        0 <= k,
    ensures
        oracle_accounts_of_first(fs, tl, k).len() == k,
    decreases k,
{
    if k > 0 {
        lemma_oracle_accounts_len(fs, tl, k - 1);
    }
}

/// The `i`-th oracle account listed is the oracle of slot `i`.
pub proof fn lemma_oracle_accounts_index(fs: FundState, tl: TokenList, k: int, i: int)
    requires
        0 <= i < k,
    ensures
        oracle_accounts_of_first(fs, tl, k)[i] == readonly(holding_token(fs, tl, i).oracle_account),
    decreases k,
{
    lemma_oracle_accounts_len(fs, tl, k - 1);
    if i < k - 1 {
        lemma_oracle_accounts_index(fs, tl, k - 1, i);
    }
}

/// The account list of a swap is fixed by the snapshot and the request: it
/// has thirteen accounts and one per slot of the composition, and the
/// account after the thirteenth and `i` more is the read-only oracle of the
/// token in slot `i`.
pub proof fn lemma_swap_accounts_order(
    fs: FundState,
    tl: TokenList,
    key: Address,
    from_id: int,
    to_id: int,
    params: SwapParams,
    fees: FeeAccounts,
    i: int,
)
    requires
        0 <= i < fs.num_of_tokens,
    ensures
        swap_accounts_spec(fs, tl, key, from_id, to_id, params, fees).len() == 13
            + fs.num_of_tokens,
        swap_accounts_spec(fs, tl, key, from_id, to_id, params, fees)[13 + i] == readonly(
            tl.list[fs.current_comp_token[i] as int].oracle_account,
        ),
{
    lemma_oracle_accounts_len(fs, tl, fs.num_of_tokens as int);
    lemma_oracle_accounts_index(fs, tl, fs.num_of_tokens as int, i);
}

/// The payload has forty bytes.
pub proof fn lemma_swap_payload_len(from_id: u64, to_id: u64, in_amount: u64)
    ensures
        swap_payload(from_id, to_id, in_amount).len() == 40,
{
    lemma_le_bytes_len(SYMMETRY_PROGRAM_SWAP_INSTRUCTION_ID as nat, 8);
    lemma_le_bytes_len(from_id as nat, 8);
    lemma_le_bytes_len(to_id as nat, 8);
    lemma_le_bytes_len(in_amount as nat, 8);
    lemma_le_bytes_len(0, 8);
}

/// Lists the accounts of a swap, given the three fee accounts.
pub(crate) fn swap_account_metas(
    fs: &FundState,
    tl: &TokenList,
    key: &Address,
    from_id: usize,
    to_id: usize,
    params: &SwapParams,
    fees: &FeeAccounts,
) -> (metas: Vec<AccountMeta>)
    requires
        snapshot_valid(*fs, *tl),
        from_id < 100,
        to_id < 100,
    ensures
        metas@ == swap_accounts_spec(*fs, *tl, *key, from_id as int, to_id as int, *params, *fees),
{
    let mut metas: Vec<AccountMeta> = Vec::new();
    metas.push(AccountMeta::new(params.user_transfer_authority, true));
    metas.push(AccountMeta::new(*key, false));
    metas.push(AccountMeta::new_readonly(Address::fund_authority(), false));
    metas.push(AccountMeta::new(tl.list[from_id].pda_token_account, false));
    metas.push(AccountMeta::new(params.user_source_token_account, false));
    metas.push(AccountMeta::new(tl.list[to_id].pda_token_account, false));
    metas.push(AccountMeta::new(params.user_destination_token_account, false));
    metas.push(AccountMeta::new(fees.swap_fee, false));
    metas.push(AccountMeta::new(fees.host_fee, false));
    metas.push(AccountMeta::new(fees.manager_fee, false));
    metas.push(AccountMeta::new_readonly(Address::token_list(), false));
    metas.push(AccountMeta::new_readonly(Address::curve_data(), false));
    metas.push(AccountMeta::new_readonly(Address::spl_token_program(), false));
    let ghost fixed = fixed_accounts(
        *key,
        tl.list[from_id as int].pda_token_account,
        tl.list[to_id as int].pda_token_account,
        *params,
        *fees,
    );
    assert(metas@ =~= fixed);
    let count = fs.num_of_tokens as usize;
    let mut i: usize = 0;
    while i < count
        invariant
            i <= count,
            count == fs.num_of_tokens,
            snapshot_valid(*fs, *tl),
            metas@ == fixed + oracle_accounts_of_first(*fs, *tl, i as int),
        decreases count - i,
    {
        let id = fs.current_comp_token[i];
        assert(id < tl.num_tokens);
        let oracle = tl.list[id as usize].oracle_account;
        let ghost before = metas@;
        metas.push(AccountMeta::new_readonly(oracle, false));
        assert(metas@ =~= fixed + oracle_accounts_of_first(*fs, *tl, i + 1));
        i += 1;
    }
    metas
}

/// Builds the payload of a swap instruction.
pub fn swap_instruction_data(from_id: u64, to_id: u64, in_amount: u64) -> (data: Vec<u8>)
    ensures
        data@ == swap_payload(from_id, to_id, in_amount),
        data.len() == 40,
{
    let mut data: Vec<u8> = Vec::new();
    push_u64(&mut data, SYMMETRY_PROGRAM_SWAP_INSTRUCTION_ID);
    push_u64(&mut data, from_id);
    push_u64(&mut data, to_id);
    push_u64(&mut data, in_amount);
    push_u64(&mut data, 0);
    proof {
        lemma_swap_payload_len(from_id, to_id, in_amount);
        assert(data@ =~= swap_payload(from_id, to_id, in_amount));
    }
    data
}

} // verus!
