use crate::derivation::{
    pool_authority_seed_list, pool_authority_seeds, seeds_view, seeds_with_bump, with_bump,
};
use crate::encoding::{append, encode_u64, le_bytes, lemma_le_bytes_is_injective};
use crate::errors::ContinuumError;
use crate::state::{AccountInfo, Pubkey};
use vstd::prelude::*;

verus! {

/// Opcode of the AMM's swap that fixes the amount paid in: the first eight
/// bytes of the SHA-256 digest of `global:swap_base_input`.
pub const SWAP_BASE_INPUT: [u8; 8] = [143, 190, 90, 218, 196, 30, 51, 222];

/// Opcode of the AMM's swap that fixes the amount paid out: the first eight
/// bytes of the SHA-256 digest of `global:swap_base_output`.
pub const SWAP_BASE_OUTPUT: [u8; 8] = [55, 217, 98, 86, 163, 74, 180, 173];

/// Opcode of the AMM's pool creation: the first eight bytes of the SHA-256
/// digest of `global:initialize`.
pub const INITIALIZE_POOL: [u8; 8] = [175, 175, 109, 31, 13, 152, 155, 237];

/// One entry of a forwarded call's account list.
#[derive(Clone, Copy, Debug, PartialEq, Eq)]
pub struct AccountMeta {
    pub pubkey: Pubkey,
    pub is_signer: bool,
    pub is_writable: bool,
}

impl AccountMeta {
    /// An account that the callee may write.
    pub fn new(pubkey: Pubkey, is_signer: bool) -> (meta: AccountMeta)
        ensures
            meta == (AccountMeta { pubkey, is_signer, is_writable: true }),
    {
        AccountMeta { pubkey, is_signer, is_writable: true }
    }

    /// An account that the callee may only read.
    pub fn new_readonly(pubkey: Pubkey, is_signer: bool) -> (meta: AccountMeta)
        ensures
            meta == (AccountMeta { pubkey, is_signer, is_writable: false }),
    {
        AccountMeta { pubkey, is_signer, is_writable: false }
    }
}

/// A call into the AMM program that the host is asked to make, together with
/// the seeds that prove the pool authority's signature.
#[derive(Clone, Debug, PartialEq, Eq)]
pub struct ForwardedCall {
    pub program_id: Pubkey,
    pub accounts: Vec<AccountMeta>,
    pub data: Vec<u8>,
    pub signer_seeds: Vec<Vec<u8>>,
}

/// What a `ForwardedCall` stands for: its fields as sequences.
pub struct ForwardedCallView {
    pub program_id: Pubkey,
    pub accounts: Seq<AccountMeta>,
    pub data: Seq<u8>,
    pub signer_seeds: Seq<Seq<u8>>,
}

impl View for ForwardedCall {
    type V = ForwardedCallView;

    open spec fn view(&self) -> ForwardedCallView {
        ForwardedCallView {
            program_id: self.program_id,
            accounts: self.accounts@,
            data: self.data@,
            signer_seeds: seeds_view(self.signer_seeds@),
        }
    }
}

/// What an operation that forwards a call answers, with the call as what it
/// stands for.
pub open spec fn answer_view(answer: Result<ForwardedCall, ContinuumError>) -> Result<
    ForwardedCallView,
    ContinuumError,
> {
    match answer {
        Ok(call) => Ok(call@),
        Err(error) => Err(error),
    }
}

/// The payload of a swap: the opcode chosen by `is_base_input`, then two
/// amounts as 64-bit little-endian numbers. A base-input swap carries the
/// amount paid in and the least amount accepted; a base-output swap carries
/// the most that may be paid (`min_amount_out`) and the amount wanted
/// (`amount_in`).
pub open spec fn swap_data(is_base_input: bool, amount_in: u64, min_amount_out: u64) -> Seq<u8> {
    if is_base_input {
        SWAP_BASE_INPUT@ + le_bytes(amount_in) + le_bytes(min_amount_out)
    } else {
        SWAP_BASE_OUTPUT@ + le_bytes(min_amount_out) + le_bytes(amount_in)
    }
}

/// The payload of a pool creation: the opcode, the two initial amounts and
/// the opening time as 64-bit little-endian numbers, the marker of a custom
/// authority, the marker of a present address, and the authority's bytes.
pub open spec fn create_pool_data(
    init_amount_0: u64,
    init_amount_1: u64,
    open_time: u64,
    authority: Pubkey,
) -> Seq<u8> {
    INITIALIZE_POOL@ + le_bytes(init_amount_0) + le_bytes(init_amount_1)
        + le_bytes(open_time) + seq![1u8, 1u8] + authority@
}

/// A swap payload is 24 bytes long: the opcode and two amounts.
pub proof fn lemma_swap_data_len(is_base_input: bool, amount_in: u64, min_amount_out: u64)
    ensures
        swap_data(is_base_input, amount_in, min_amount_out).len() == 24,
{
}

/// A swap payload tells which swap it asks for: two payloads that agree byte
/// for byte were built from the same direction and the same two amounts.
pub proof fn lemma_swap_data_is_injective(
    is_base_input: bool,
    amount_in: u64,
    min_amount_out: u64,
    other_is_base_input: bool,
    other_amount_in: u64,
    other_min_amount_out: u64,
)
    requires
        swap_data(is_base_input, amount_in, min_amount_out) == swap_data(
            other_is_base_input,
            other_amount_in,
            other_min_amount_out,
        ),
    ensures
        is_base_input == other_is_base_input,
        amount_in == other_amount_in,
        min_amount_out == other_min_amount_out,
{
    let data = swap_data(is_base_input, amount_in, min_amount_out);
    let other = swap_data(other_is_base_input, other_amount_in, other_min_amount_out);
    assert(data[0] == if is_base_input { 143u8 } else { 55u8 });
    assert(other[0] == if other_is_base_input { 143u8 } else { 55u8 });
    let first = if is_base_input { amount_in } else { min_amount_out };
    let second = if is_base_input { min_amount_out } else { amount_in };
    let other_first = if is_base_input { other_amount_in } else { other_min_amount_out };
    let other_second = if is_base_input { other_min_amount_out } else { other_amount_in };
    assert(data.subrange(8, 16) =~= le_bytes(first));
    assert(data.subrange(16, 24) =~= le_bytes(second));
    assert(other.subrange(8, 16) =~= le_bytes(other_first));
    assert(other.subrange(16, 24) =~= le_bytes(other_second));
    lemma_le_bytes_is_injective(first, other_first);
    lemma_le_bytes_is_injective(second, other_second);
}

/// Encodes the payload of a swap.
pub fn swap_instruction_data(is_base_input: bool, amount_in: u64, min_amount_out: u64) -> (data: Vec<u8>)
    ensures
        data@ == swap_data(is_base_input, amount_in, min_amount_out),
{
    let mut data: Vec<u8> = Vec::new();
    if is_base_input {
        append(&mut data, &SWAP_BASE_INPUT);
        append(&mut data, encode_u64(amount_in).as_slice());
        append(&mut data, encode_u64(min_amount_out).as_slice());
    } else {
        append(&mut data, &SWAP_BASE_OUTPUT);
        append(&mut data, encode_u64(min_amount_out).as_slice());
        append(&mut data, encode_u64(amount_in).as_slice());
    }
    assert(data@ =~= swap_data(is_base_input, amount_in, min_amount_out));
    data
}

/// Encodes the payload of a pool creation under `authority`.
pub fn create_pool_instruction_data(
    init_amount_0: u64,
    init_amount_1: u64,
    open_time: u64,
    authority: &Pubkey,
) -> (data: Vec<u8>)
    ensures
        data@ == create_pool_data(init_amount_0, init_amount_1, open_time, *authority),
{
    let mut data: Vec<u8> = Vec::new();
    append(&mut data, &INITIALIZE_POOL);
    append(&mut data, encode_u64(init_amount_0).as_slice());
    append(&mut data, encode_u64(init_amount_1).as_slice());
    append(&mut data, encode_u64(open_time).as_slice());
    data.push(1);
    data.push(1);
    append(&mut data, &authority.bytes);
    assert(data@ =~= create_pool_data(init_amount_0, init_amount_1, open_time, *authority));
    data
}

/// How a pass-through account appears in a swap: with the write access the
/// caller declared, and never as a signer.
pub open spec fn passed_through(account: AccountInfo) -> AccountMeta {
    AccountMeta { pubkey: account.key, is_signer: false, is_writable: account.is_writable }
}

/// How a pass-through account appears in a pool creation: as declared.
pub open spec fn passed_as_declared(account: AccountInfo) -> AccountMeta {
    AccountMeta {
        pubkey: account.key,
        is_signer: account.is_signer,
        is_writable: account.is_writable,
    }
}

/// The account list of a swap for a queued order: the pool authority as a
/// read-only signer, the owner's source and destination token accounts as
/// writable, then every pass-through account in the caller's order.
pub open spec fn swap_accounts(
    authority: Pubkey,
    source: Pubkey,
    destination: Pubkey,
    remaining: Seq<AccountInfo>,
) -> Seq<AccountMeta> {
    seq![
        AccountMeta { pubkey: authority, is_signer: true, is_writable: false },
        AccountMeta { pubkey: source, is_signer: false, is_writable: true },
        AccountMeta { pubkey: destination, is_signer: false, is_writable: true },
    ] + remaining.map_values(|account: AccountInfo| passed_through(account))
}

/// The account list of an immediate swap: the first pass-through account is
/// the swapping party, a read-only signer; the others pass through.
pub open spec fn immediate_swap_accounts(remaining: Seq<AccountInfo>) -> Seq<AccountMeta> {
    Seq::new(
        remaining.len(),
        |i: int|
            if i == 0 {
                AccountMeta { pubkey: remaining[i].key, is_signer: true, is_writable: false }
            } else {
                passed_through(remaining[i])
            },
    )
}

/// The account list of a pool creation: every pass-through account as declared.
pub open spec fn create_pool_accounts(remaining: Seq<AccountInfo>) -> Seq<AccountMeta> {
    remaining.map_values(|account: AccountInfo| passed_as_declared(account))
}

/// The seeds that prove the signature of the authority of `pool_id`: the
/// salt, the pool's address, and the bump seed as a single byte.
pub open spec fn authority_signer_seeds(pool_id: Pubkey, bump: u8) -> Seq<Seq<u8>> {
    seeds_with_bump(pool_authority_seeds(pool_id), bump)
}

/// Builds the account list of a swap for a queued order.
pub fn swap_account_metas(
    authority: &Pubkey,
    source: &Pubkey,
    destination: &Pubkey,
    remaining: &Vec<AccountInfo>,
) -> (metas: Vec<AccountMeta>)
    ensures
        metas@ == swap_accounts(*authority, *source, *destination, remaining@),
{
    let mut metas: Vec<AccountMeta> = Vec::new();
    metas.push(AccountMeta::new_readonly(*authority, true));
    metas.push(AccountMeta::new(*source, false));
    metas.push(AccountMeta::new(*destination, false));
    let mut i: usize = 0;
    while i < remaining.len()
        invariant
            i <= remaining.len(),
            metas@ == swap_accounts(*authority, *source, *destination, remaining@.subrange(0, i as int)),
        decreases remaining.len() - i,
    {
        let account = remaining[i];
        let meta = if account.is_writable {
            AccountMeta::new(account.key, false)
        } else {
            AccountMeta::new_readonly(account.key, false)
        };
        metas.push(meta);
        assert(metas@ =~= swap_accounts(
            *authority,
            *source,
            *destination,
            remaining@.subrange(0, i + 1),
        ));
        i += 1;
    }
    assert(remaining@.subrange(0, i as int) =~= remaining@);
    metas
}

/// Builds the account list of an immediate swap.
pub fn immediate_swap_account_metas(remaining: &Vec<AccountInfo>) -> (metas: Vec<AccountMeta>)
    ensures
        metas@ == immediate_swap_accounts(remaining@),
{
    let mut metas: Vec<AccountMeta> = Vec::new();
    let mut i: usize = 0;
    while i < remaining.len()
        invariant
            i <= remaining.len(),
            metas@ == immediate_swap_accounts(remaining@).subrange(0, i as int),
        decreases remaining.len() - i,
    {
        let account = remaining[i];
        let meta = if i == 0 {
            AccountMeta::new_readonly(account.key, true)
        } else if account.is_writable {
            AccountMeta::new(account.key, false)
        } else {
            AccountMeta::new_readonly(account.key, false)
        };
        metas.push(meta);
        assert(metas@ =~= immediate_swap_accounts(remaining@).subrange(0, i + 1));
        i += 1;
    }
    assert(metas@ =~= immediate_swap_accounts(remaining@));
    metas
}

/// Builds the account list of a pool creation.
pub fn create_pool_account_metas(remaining: &Vec<AccountInfo>) -> (metas: Vec<AccountMeta>)
    ensures
        metas@ == create_pool_accounts(remaining@),
{
    let mut metas: Vec<AccountMeta> = Vec::new();
    let mut i: usize = 0;
    while i < remaining.len()
        invariant
            i <= remaining.len(),
            metas@ == create_pool_accounts(remaining@).subrange(0, i as int),
        decreases remaining.len() - i,
    {
        let account = remaining[i];
        let meta = if account.is_writable {
            AccountMeta::new(account.key, account.is_signer)
        } else {
            AccountMeta::new_readonly(account.key, account.is_signer)
        };
        metas.push(meta);
        assert(metas@ =~= create_pool_accounts(remaining@).subrange(0, i + 1));
        i += 1;
    }
    assert(metas@ =~= create_pool_accounts(remaining@));
    metas
}

/// Builds the seeds that prove the signature of the authority of `pool_id`.
pub fn signer_seeds(pool_id: &Pubkey, bump: u8) -> (seeds: Vec<Vec<u8>>)
    ensures
        seeds_view(seeds@) == authority_signer_seeds(*pool_id, bump),
{
    with_bump(pool_authority_seed_list(pool_id), bump)
}

} // verus!
