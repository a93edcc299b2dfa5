//! Addresses that a program derives from its own id.

use crate::codec::copy_range;
use crate::ledger::{derived_view, program_address, try_find_program_address};
use vstd::prelude::*;

verus! {

/// The seeds of a derivation from one byte string.
pub fn seeds_of_one(first: &[u8]) -> (r: Vec<Vec<u8>>)
    ensures
        r.deep_view() == seq![first@],
{
    let mut seeds: Vec<Vec<u8>> = Vec::new();
    seeds.push(copy_range(first, 0, first.len()));
    proof {
        assert(first@.subrange(0, first@.len() as int) =~= first@);
        assert(seeds.deep_view() =~~= seq![first@]);
    }
    seeds
}

/// The seeds of a derivation from two byte strings.
pub fn seeds_of_two(first: &[u8], second: &[u8]) -> (r: Vec<Vec<u8>>)
    ensures
        r.deep_view() == seq![first@, second@],
{
    let mut seeds: Vec<Vec<u8>> = Vec::new();
    seeds.push(copy_range(first, 0, first.len()));
    seeds.push(copy_range(second, 0, second.len()));
    proof {
        assert(first@.subrange(0, first@.len() as int) =~= first@);
        assert(second@.subrange(0, second@.len() as int) =~= second@);
        assert(seeds.deep_view() =~~= seq![first@, second@]);
    }
    seeds
}

/// The authority that a program derives for one of its accounts, with its
/// bump seed.
pub open spec fn spec_base_address(program_id: Seq<u8>, key: Seq<u8>) -> Option<(Seq<u8>, u8)> {
    program_address(seq![key], program_id)
}

/// The authority of an account and the address derived from the authority
/// with `seed`, with the bump seed of the latter.
pub open spec fn spec_derived_pair(program_id: Seq<u8>, key: Seq<u8>, seed: Seq<u8>) -> Option<
    (Seq<u8>, Seq<u8>, u8),
> {
    match spec_base_address(program_id, key) {
        None => None,
        Some((base, _)) => match program_address(seq![base, seed], program_id) {
            None => None,
            Some((derived, bump)) => Some((base, derived, bump)),
        },
    }
}

/// Whether derived addresses are the expected ones, by their bytes.
pub open spec fn derives(r: Option<([u8; 32], [u8; 32], u8)>, expected: Option<
    (Seq<u8>, Seq<u8>, u8),
>) -> bool {
    match expected {
        None => r is None,
        Some((base, derived, bump)) => r matches Some(found) && found.0@ == base && found.1@
            == derived && found.2 == bump,
    }
}

/// Derives the authority of an account, with its bump seed.
pub fn find_base_address(key: &[u8; 32], program_id: &[u8; 32]) -> (r: Option<([u8; 32], u8)>)
    ensures
        derived_view(r) == spec_base_address(program_id@, key@),
{
    let seeds = seeds_of_one(key.as_slice());
    try_find_program_address(&seeds, program_id)
}

/// Derives the authority of an account and the address derived from the
/// authority with `seed`, with the latter's bump seed.
pub fn find_derived_pair(program_id: &[u8; 32], key: &[u8; 32], seed: &[u8]) -> (r: Option<
    ([u8; 32], [u8; 32], u8),
>)
    ensures
        derives(r, spec_derived_pair(program_id@, key@, seed@)),
{
    let base = match find_base_address(key, program_id) {
        Some((address, _)) => address,
        None => { return None; },
    };
    let seeds = seeds_of_two(base.as_slice(), seed);
    match try_find_program_address(&seeds, program_id) {
        Some((derived, bump)) => Some((base, derived, bump)),
        None => None,
    }
}

} // verus!
