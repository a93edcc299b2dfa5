//! The addresses that the program derives: the authority of a mint, the
//! token account of an external address, and the counter of a signer.

use crate::codec::append;
use crate::error::ProgramError;
use crate::ledger::{
    address_with_seed, base58_encode, base58_text, create_with_seed, spec_token_program_id,
    token_program_id,
};
use crate::pda::{derives, find_base_address, find_derived_pair, spec_base_address, spec_derived_pair};
use vstd::prelude::*;

verus! {

/// The tag that starts the seed of a counter account: the text `N_`.
pub open spec fn spec_nonce_account_prefix() -> Seq<u8> {
    seq![0x4eu8, 0x5fu8]
}

/// The seed of the counter account of a signer: the tag, then the signer's
/// address.
pub open spec fn spec_nonce_seed(signer: Seq<u8>) -> Seq<u8> {
    spec_nonce_account_prefix() + signer
}

/// The seed of the counter account of a signer.
pub fn nonce_account_seed(signer: &[u8; 20]) -> (r: Vec<u8>)
    ensures
        r@ == spec_nonce_seed(signer@),
{
    let mut seed: Vec<u8> = Vec::new();
    seed.push(0x4e);
    seed.push(0x5f);
    append(&mut seed, signer.as_slice());
    seed
}

/// The authority of a mint and the counter account derived from it with
/// `seed`, with the latter's bump seed.
pub open spec fn spec_nonce_address(program_id: Seq<u8>, mint: Seq<u8>, seed: Seq<u8>) -> Option<
    (Seq<u8>, Seq<u8>, u8),
> {
    spec_derived_pair(program_id, mint, seed)
}

/// Derives the authority of a mint and the counter account derived from it
/// with `seed`, with the latter's bump seed.
pub fn find_nonce_address(program_id: &[u8; 32], mint: &[u8; 32], seed: &[u8]) -> (r: Option<
    ([u8; 32], [u8; 32], u8),
>)
    ensures
        derives(r, spec_nonce_address(program_id@, mint@, seed@)),
{
    find_derived_pair(program_id, mint, seed)
}

/// The authority of a mint, with its bump seed.
#[derive(Clone, Copy, Debug)]
pub struct Base {
    /// The authority's address.
    pub address: [u8; 32],
    /// The bump seed of the derivation.
    pub seed: u8,
}

/// The token account of an external address, with the seed text of its
/// derivation.
#[derive(Clone, Debug)]
pub struct Derived {
    /// The token account's address.
    pub address: [u8; 32],
    /// The seed text: the external address in base58.
    pub seed: String,
}

/// The authority of a mint and the token account of an external address
/// under it.
#[derive(Clone, Debug)]
pub struct AddressPair {
    /// The authority.
    pub base: Base,
    /// The token account.
    pub derive: Derived,
}

/// The authority of a mint with its bump seed, and the token account that
/// the token program owns for an external address: derived from the
/// authority with the address's base58 text as seed.
pub open spec fn spec_address_pair(program_id: Seq<u8>, mint: Seq<u8>, eth_address: Seq<u8>)
    -> Option<(Seq<u8>, u8, Seq<u8>, Seq<char>)> {
    match spec_base_address(program_id, mint) {
        None => None,
        Some((base, bump)) => match address_with_seed(
            base,
            base58_text(eth_address),
            spec_token_program_id(),
        ) {
            None => None,
            Some(derived) => Some((base, bump, derived, base58_text(eth_address))),
        },
    }
}

/// Derives the authority of a mint and the token account of an external
/// address. Fails with `InvalidSeeds` where the platform derives none.
pub fn find_address_pair(program_id: &[u8; 32], mint: &[u8; 32], eth_address: [u8; 20]) -> (r:
    Result<AddressPair, ProgramError>)
    ensures
        match spec_address_pair(program_id@, mint@, eth_address@) {
            None => r matches Err(e) && e == ProgramError::InvalidSeeds,
            Some((base, bump, derived, seed)) => r matches Ok(pair) && pair.base.address@ == base
                && pair.base.seed == bump && pair.derive.address@ == derived && pair.derive.seed@
                == seed,
        },
{
    let (base, bump) = match find_base_address(mint, program_id) {
        Some(found) => found,
        None => { return Err(ProgramError::InvalidSeeds); },
    };
    let seed = base58_encode(eth_address.as_slice());
    let owner = token_program_id();
    match create_with_seed(&base, &seed, &owner) {
        Some(address) => Ok(
            AddressPair { base: Base { address: base, seed: bump }, derive: Derived { address, seed } },
        ),
        None => Err(ProgramError::InvalidSeeds),
    }
}

} // verus!
