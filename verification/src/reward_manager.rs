//! The reward manager: senders of reward attestations, added and removed
//! by the manager or by a threshold of attesting senders.

use vstd::prelude::*;

pub mod instruction;
pub mod processor;
pub mod state;
pub mod utils;

verus! {

/// Current program version.
pub const PROGRAM_VERSION: u8 = 1;

/// The id of the reward manager program,
/// `BhNALTyahpbQBQ9fMAeLPeH85eCog3sidaTjDtdA4WuW`.
pub open spec fn spec_id() -> Seq<u8> {
    seq![
        158u8, 236, 7, 69, 37, 21, 231, 16, 166, 112, 102, 125, 81, 54, 249, 44, 105, 131, 126, 4,
        139, 87, 228, 81, 225, 119, 175, 246, 234, 83, 22, 65,
    ]
}

/// The id of the reward manager program.
pub fn id() -> (r: [u8; 32])
    ensures
        r@ == spec_id(),
{
    let id: [u8; 32] = [
        158, 236, 7, 69, 37, 21, 231, 16, 166, 112, 102, 125, 81, 54, 249, 44, 105, 131, 126, 4,
        139, 87, 228, 81, 225, 119, 175, 246, 234, 83, 22, 65,
    ];
    assert(id@ =~= spec_id());
    id
}

/// Whether `key` is the id of the reward manager program.
pub fn check_id(key: &[u8; 32]) -> (r: bool)
    ensures
        r == (key@ == spec_id()),
{
    let own = id();
    crate::codec::slices_equal(key.as_slice(), own.as_slice())
}

} // verus!
