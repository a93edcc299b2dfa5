//! The addresses that the reward manager derives.

use crate::codec::append;
use crate::ledger::derived_view;
use crate::pda::{derives, find_base_address, spec_base_address, spec_derived_pair};
use vstd::prelude::*;

verus! {

/// The tag that starts the seed of a sender account: the text `S_`.
pub open spec fn spec_sender_seed_prefix() -> Seq<u8> {
    seq![0x53u8, 0x5f]
}

/// The tag that starts the seed of an account of verified messages: the
/// text `V_`.
pub open spec fn spec_verify_transfer_seed_prefix() -> Seq<u8> {
    seq![0x56u8, 0x5f]
}

/// The tag that starts the seed of a transfer account: the text `T_`.
pub open spec fn spec_transfer_seed_prefix() -> Seq<u8> {
    seq![0x54u8, 0x5f]
}

/// A seed: a two-letter tag that ends in `_`, then the bytes that tell the
/// accounts of one purpose apart.
pub fn tagged_seed(letter: u8, tail: &[u8]) -> (r: Vec<u8>)
    ensures
        r@ == seq![letter, 0x5fu8] + tail@,
{
    let mut seed: Vec<u8> = Vec::new();
    seed.push(letter);
    seed.push(0x5f);
    append(&mut seed, tail);
    seed
}

/// The seed of the account of the sender with an external address.
pub fn sender_seed(eth_address: &[u8; 20]) -> (r: Vec<u8>)
    ensures
        r@ == spec_sender_seed_prefix() + eth_address@,
{
    tagged_seed(0x53, eth_address.as_slice())
}

/// The seed of the account of the messages verified under an id.
pub fn verified_messages_seed(id: &[u8]) -> (r: Vec<u8>)
    ensures
        r@ == spec_verify_transfer_seed_prefix() + id@,
{
    tagged_seed(0x56, id)
}

/// The seed of the account that records the transfer made under an id.
pub fn transfer_seed(id: &[u8]) -> (r: Vec<u8>)
    ensures
        r@ == spec_transfer_seed_prefix() + id@,
{
    tagged_seed(0x54, id)
}

/// Derives the authority of a reward manager, with its bump seed.
pub fn find_program_address(program_id: &[u8; 32], pubkey: &[u8; 32]) -> (r: Option<
    ([u8; 32], u8),
>)
    ensures
        derived_view(r) == spec_base_address(program_id@, pubkey@),
{
    find_base_address(pubkey, program_id)
}

/// Derives the authority of a reward manager and the account derived from
/// it with `seed`, with the latter's bump seed.
pub fn find_derived_pair(program_id: &[u8; 32], reward_manager: &[u8; 32], seed: &[u8]) -> (r:
    Option<([u8; 32], [u8; 32], u8)>)
    ensures
        derives(r, spec_derived_pair(program_id@, reward_manager@, seed@)),
{
    crate::pda::find_derived_pair(program_id, reward_manager, seed)
}

} // verus!
