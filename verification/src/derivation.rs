use crate::encoding::{encode_u64, le_bytes, lemma_le_bytes_is_injective};
use crate::state::Pubkey;
use vstd::prelude::*;

verus! {

/// The bytes of the text `fifo_state`, the salt of the global record's address.
pub open spec fn fifo_state_salt() -> Seq<u8> {
    seq![102u8, 105, 102, 111, 95, 115, 116, 97, 116, 101]
}

/// The bytes of the text `pool_registry`, the salt of a registration's address.
pub open spec fn pool_registry_salt() -> Seq<u8> {
    seq![112u8, 111, 111, 108, 95, 114, 101, 103, 105, 115, 116, 114, 121]
}

/// The bytes of the text `order`, the salt of an order's address.
pub open spec fn order_salt() -> Seq<u8> {
    seq![111u8, 114, 100, 101, 114]
}

/// The bytes of the text `cp_pool_authority`, the salt under which every
/// pool's authority is derived.
pub open spec fn pool_authority_salt() -> Seq<u8> {
    seq![99u8, 112, 95, 112, 111, 111, 108, 95, 97, 117, 116, 104, 111, 114, 105, 116, 121]
}

/// The seeds of the global record's address.
pub open spec fn fifo_state_seeds() -> Seq<Seq<u8>> {
    seq![fifo_state_salt()]
}

/// The seeds of the address of the registration of `pool_id`.
pub open spec fn pool_registry_seeds(pool_id: Pubkey) -> Seq<Seq<u8>> {
    seq![pool_registry_salt(), pool_id@]
}

/// The seeds of the address of the order that `user` submitted under
/// `sequence`: the owner and the sequence number name the order.
pub open spec fn order_seeds(user: Pubkey, sequence: u64) -> Seq<Seq<u8>> {
    seq![order_salt(), user@, le_bytes(sequence)]
}

/// The seeds from which the authority of `pool_id` is derived.
pub open spec fn pool_authority_seeds(pool_id: Pubkey) -> Seq<Seq<u8>> {
    seq![pool_authority_salt(), pool_id@]
}

/// The byte strings that a list of seeds holds.
pub open spec fn seeds_view(seeds: Seq<Vec<u8>>) -> Seq<Seq<u8>> {
    seeds.map_values(|seed: Vec<u8>| seed@)
}

/// Orders with the same seeds have the same owner and the same sequence
/// number, and no order shares its seeds with a registration, a pool
/// authority or the global record.
pub proof fn lemma_order_seeds_name_one_order(
    user: Pubkey,
    sequence: u64,
    other_user: Pubkey,
    other_sequence: u64,
    pool_id: Pubkey,
)
    ensures
        order_seeds(user, sequence) == order_seeds(other_user, other_sequence) ==> user
            == other_user && sequence == other_sequence,
        order_seeds(user, sequence) != pool_registry_seeds(pool_id),
        order_seeds(user, sequence) != pool_authority_seeds(pool_id),
        order_seeds(user, sequence) != fifo_state_seeds(),
        pool_registry_seeds(pool_id) != pool_authority_seeds(pool_id),
{
    if order_seeds(user, sequence) == order_seeds(other_user, other_sequence) {
        assert(order_seeds(user, sequence)[1] == order_seeds(other_user, other_sequence)[1]);
        assert(order_seeds(user, sequence)[2] == order_seeds(other_user, other_sequence)[2]);
        Pubkey::lemma_view_injective(user, other_user);
        lemma_le_bytes_is_injective(sequence, other_sequence);
    }
    assert(order_seeds(user, sequence).len() == 3);
    assert(pool_registry_seeds(pool_id).len() == 2);
    assert(pool_authority_seeds(pool_id).len() == 2);
    assert(fifo_state_seeds().len() == 1);
    assert(pool_registry_seeds(pool_id)[0][0] == 112);
    assert(pool_authority_seeds(pool_id)[0][0] == 99);
}

/// The program-derived address for `seeds` under `program_id`, with the bump
/// seed that was found for it, or `None` where no bump seed gives one.
pub uninterp spec fn program_address(seeds: Seq<Seq<u8>>, program_id: Seq<u8>) -> Option<(Seq<u8>, u8)>;

/// Calls `Pubkey::try_find_program_address` of `anchor_lang`. Its contract
/// is believed, not proved: the result is the derived address and bump seed
/// that the name `program_address` stands for, and it is absent exactly when
/// the derivation finds none. Nothing else is claimed of the derivation.
#[verifier::external_body]
fn try_find_program_address(seeds: &Vec<Vec<u8>>, program_id: &Pubkey) -> (found: Option<(Pubkey, u8)>)
    ensures
        match found {
            Some((address, bump)) => program_address(seeds_view(seeds@), program_id@) == Some(
                (address@, bump),
            ),
            None => program_address(seeds_view(seeds@), program_id@) is None,
        },
{
    let slices: Vec<&[u8]> = seeds.iter().map(|seed| seed.as_slice()).collect();
    let program = anchor_lang::prelude::Pubkey::new_from_array(program_id.bytes);
    match anchor_lang::prelude::Pubkey::try_find_program_address(&slices, &program) {
        Some((address, bump)) => Some((Pubkey { bytes: address.to_bytes() }, bump)),
        None => None,
    }
}

/// The address derived from `seeds` under `program_id` and its bump seed: a
/// pure function of the two, so that anyone can recompute it.
pub open spec fn derived_address(seeds: Seq<Seq<u8>>, program_id: Pubkey) -> Option<(Pubkey, u8)> {
    match program_address(seeds, program_id@) {
        Some((address, bump)) => Some((Pubkey::from_view(address), bump)),
        None => None,
    }
}

/// The authority of `pool_id` under `program_id` and its bump seed.
pub open spec fn pool_authority(program_id: Pubkey, pool_id: Pubkey) -> Option<(Pubkey, u8)> {
    derived_address(pool_authority_seeds(pool_id), program_id)
}

/// Derives the address that `seeds` give under `program_id`.
pub fn derive_address(seeds: &Vec<Vec<u8>>, program_id: &Pubkey) -> (derived: Option<(Pubkey, u8)>)
    ensures
        derived == derived_address(seeds_view(seeds@), *program_id),
{
    let found = try_find_program_address(seeds, program_id);
    proof {
        if let Some((address, bump)) = found {
            Pubkey::lemma_from_view(address);
        }
    }
    found
}

fn salt_of(text: &[u8]) -> (salt: Vec<u8>)
    ensures
        salt@ == text@,
{
    let mut salt: Vec<u8> = Vec::new();
    crate::encoding::append(&mut salt, text);
    salt
}

/// The salt of pool authorities as bytes that can be handed on.
pub fn pool_authority_seed() -> (seed: Vec<u8>)
    ensures
        seed@ == pool_authority_salt(),
{
    let text: [u8; 17] = [
        99, 112, 95, 112, 111, 111, 108, 95, 97, 117, 116, 104, 111, 114, 105, 116, 121,
    ];
    let seed = salt_of(&text);
    assert(seed@ =~= pool_authority_salt());
    seed
}

/// Builds the seeds of the global record's address.
pub fn fifo_state_seed_list() -> (seeds: Vec<Vec<u8>>)
    ensures
        seeds_view(seeds@) == fifo_state_seeds(),
{
    let text: [u8; 10] = [102, 105, 102, 111, 95, 115, 116, 97, 116, 101];
    let salt = salt_of(&text);
    assert(salt@ =~= fifo_state_salt());
    let mut seeds: Vec<Vec<u8>> = Vec::new();
    seeds.push(salt);
    assert(seeds_view(seeds@) =~= fifo_state_seeds());
    seeds
}

/// Builds the seeds of the address of the registration of `pool_id`.
pub fn pool_registry_seed_list(pool_id: &Pubkey) -> (seeds: Vec<Vec<u8>>)
    ensures
        seeds_view(seeds@) == pool_registry_seeds(*pool_id),
{
    let text: [u8; 13] = [112, 111, 111, 108, 95, 114, 101, 103, 105, 115, 116, 114, 121];
    let salt = salt_of(&text);
    assert(salt@ =~= pool_registry_salt());
    let mut seeds: Vec<Vec<u8>> = Vec::new();
    seeds.push(salt);
    seeds.push(pool_id.to_vec());
    assert(seeds_view(seeds@) =~= pool_registry_seeds(*pool_id));
    seeds
}

/// Builds the seeds of the address of the order that `user` submitted under
/// `sequence`.
pub fn order_seed_list(user: &Pubkey, sequence: u64) -> (seeds: Vec<Vec<u8>>)
    ensures
        seeds_view(seeds@) == order_seeds(*user, sequence),
{
    let text: [u8; 5] = [111, 114, 100, 101, 114];
    let salt = salt_of(&text);
    assert(salt@ =~= order_salt());
    let mut seeds: Vec<Vec<u8>> = Vec::new();
    seeds.push(salt);
    seeds.push(user.to_vec());
    seeds.push(encode_u64(sequence));
    assert(seeds_view(seeds@) =~= order_seeds(*user, sequence));
    seeds
}

/// Builds the seeds from which the authority of `pool_id` is derived.
pub fn pool_authority_seed_list(pool_id: &Pubkey) -> (seeds: Vec<Vec<u8>>)
    ensures
        seeds_view(seeds@) == pool_authority_seeds(*pool_id),
{
    let mut seeds: Vec<Vec<u8>> = Vec::new();
    seeds.push(pool_authority_seed());
    seeds.push(pool_id.to_vec());
    assert(seeds_view(seeds@) =~= pool_authority_seeds(*pool_id));
    seeds
}

/// Derives the authority that signs forwarded calls for `pool_id`.
pub fn derive_pool_authority(program_id: &Pubkey, pool_id: &Pubkey) -> (derived: Option<(Pubkey, u8)>)
    ensures
        derived == pool_authority(*program_id, *pool_id),
{
    derive_address(&pool_authority_seed_list(pool_id), program_id)
}

/// Derives the address of the order that `user` submitted under `sequence`.
pub fn derive_order_address(program_id: &Pubkey, user: &Pubkey, sequence: u64) -> (derived: Option<
    (Pubkey, u8),
>)
    ensures
        derived == derived_address(order_seeds(*user, sequence), *program_id),
{
    derive_address(&order_seed_list(user, sequence), program_id)
}

/// Derives the address of the registration of `pool_id`.
pub fn derive_pool_registry_address(program_id: &Pubkey, pool_id: &Pubkey) -> (derived: Option<
    (Pubkey, u8),
>)
    ensures
        derived == derived_address(pool_registry_seeds(*pool_id), *program_id),
{
    derive_address(&pool_registry_seed_list(pool_id), program_id)
}

/// Derives the address of the global record.
pub fn derive_fifo_state_address(program_id: &Pubkey) -> (derived: Option<(Pubkey, u8)>)
    ensures
        derived == derived_address(fifo_state_seeds(), *program_id),
{
    derive_address(&fifo_state_seed_list(), program_id)
}

/// The seeds that sign for a derived address: the seeds it was derived
/// from, then its bump seed as a single byte.
pub open spec fn seeds_with_bump(seeds: Seq<Seq<u8>>, bump: u8) -> Seq<Seq<u8>> {
    seeds.push(seq![bump])
}

/// Appends the bump seed to the seeds of a derived address.
pub fn with_bump(seeds: Vec<Vec<u8>>, bump: u8) -> (signing: Vec<Vec<u8>>)
    ensures
        seeds_view(signing@) == seeds_with_bump(seeds_view(seeds@), bump),
{
    let mut signing = seeds;
    let mut last: Vec<u8> = Vec::new();
    last.push(bump);
    assert(last@ =~= seq![bump]);
    signing.push(last);
    assert(seeds_view(signing@) =~= seeds_with_bump(seeds_view(seeds@), bump));
    signing
}

} // verus!
