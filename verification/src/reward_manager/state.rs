//! The persisted records: reward managers and their senders.

use crate::attestation::AuthorizedIdentity;
use crate::codec::{append, array20_at, array32_at};
use crate::error::ProgramError;
use vstd::prelude::*;

verus! {

/// The version of a record that was never initialized.
pub const UNINITIALIZED_VERSION: u8 = 0;

/// The version of an initialized record.
pub const INITIALIZED_VERSION: u8 = 1;

/// The version of a sender record that was deleted. A deleted record is not
/// initialized, and cannot be initialized again: its account has to be
/// closed and created anew.
pub const CLEARED_VERSION: u8 = 2;

/// A reward manager: the group that senders belong to.
#[derive(Clone, Copy, Debug, PartialEq, Eq)]
pub struct RewardManager {
    /// The record's version.
    pub version: u8,
    /// The token account that rewards are paid from.
    pub token_account: [u8; 32],
    /// The account that may add and remove senders.
    pub manager: [u8; 32],
    /// The number of attestations that an operation requires.
    pub min_votes: u8,
}

/// A reward manager as a mathematical value.
pub struct RewardManagerView {
    pub version: u8,
    pub token_account: Seq<u8>,
    pub manager: Seq<u8>,
    pub min_votes: u8,
}

impl View for RewardManager {
    type V = RewardManagerView;

    open spec fn view(&self) -> RewardManagerView {
        RewardManagerView {
            version: self.version,
            token_account: self.token_account@,
            manager: self.manager@,
            min_votes: self.min_votes,
        }
    }
}

impl RewardManagerView {
    /// Whether the record is initialized.
    pub open spec fn initialized(self) -> bool {
        self.version == INITIALIZED_VERSION
    }

    /// Whether the record can be stored: a known version and keys of 32
    /// bytes.
    pub open spec fn well_formed(self) -> bool {
        (self.version == UNINITIALIZED_VERSION || self.version == INITIALIZED_VERSION)
            && self.token_account.len() == 32 && self.manager.len() == 32
    }

    /// The 66 bytes that stand for the record: version, token account,
    /// manager, threshold.
    pub open spec fn encode(self) -> Seq<u8> {
        seq![self.version] + self.token_account + self.manager + seq![self.min_votes]
    }
}

impl RewardManager {
    /// Size of the stored record.
    pub const LEN: usize = 66;

    /// An initialized reward manager.
    pub fn new(token_account: [u8; 32], manager: [u8; 32], min_votes: u8) -> (r: Self)
        ensures
            r == (RewardManager { version: INITIALIZED_VERSION, token_account, manager, min_votes }),
    {
        RewardManager { version: INITIALIZED_VERSION, token_account, manager, min_votes }
    }

    /// The record that stored data holds: 66 bytes with a known version.
    pub open spec fn decode(s: Seq<u8>) -> Result<RewardManagerView, ProgramError> {
        if s.len() == 66 && (s[0] == UNINITIALIZED_VERSION || s[0] == INITIALIZED_VERSION) {
            Ok(
                RewardManagerView {
                    version: s[0],
                    token_account: s.subrange(1, 33),
                    manager: s.subrange(33, 65),
                    min_votes: s[65],
                },
            )
        } else {
            Err(ProgramError::DecodeError)
        }
    }

    /// Whether the record is initialized.
    pub fn is_initialized(&self) -> (r: bool)
        ensures
            r == self@.initialized(),
    {
        self.version == INITIALIZED_VERSION
    }

    /// Reads a record from stored data.
    pub fn try_from_slice(data: &[u8]) -> (r: Result<Self, ProgramError>)
        ensures
            crate::error::yields(r, Self::decode(data@)),
    {
        if data.len() != 66 {
            return Err(ProgramError::DecodeError);
        }
        if data[0] != UNINITIALIZED_VERSION && data[0] != INITIALIZED_VERSION {
            return Err(ProgramError::DecodeError);
        }
        Ok(
            RewardManager {
                version: data[0],
                token_account: array32_at(data, 1),
                manager: array32_at(data, 33),
                min_votes: data[65],
            },
        )
    }

    /// Writes the record in 66 bytes.
    pub fn try_to_vec(&self) -> (r: Vec<u8>)
        ensures
            r@ == self@.encode(),
            r@.len() == 66,
    {
        let mut out: Vec<u8> = Vec::new();
        out.push(self.version);
        append(&mut out, self.token_account.as_slice());
        append(&mut out, self.manager.as_slice());
        out.push(self.min_votes);
        out
    }

    /// Reading what was written gives the record back.
    pub proof fn lemma_decode_encode(v: RewardManagerView)
        requires
            v.well_formed(),
        ensures
            Self::decode(v.encode()) == Ok::<RewardManagerView, ProgramError>(v),
    {
        assert(v.encode().subrange(1, 33) =~= v.token_account);
        assert(v.encode().subrange(33, 65) =~= v.manager);
    }
}

/// A sender of reward attestations.
#[derive(Clone, Copy, Debug, PartialEq, Eq)]
pub struct SenderAccount {
    /// The record's version.
    pub version: u8,
    /// The reward manager that the sender belongs to.
    pub reward_manager: [u8; 32],
    /// The sender's external address.
    pub eth_address: [u8; 20],
    /// The sender's operator.
    pub operator: [u8; 20],
}

/// A sender as a mathematical value.
pub struct SenderAccountView {
    pub version: u8,
    pub reward_manager: Seq<u8>,
    pub eth_address: Seq<u8>,
    pub operator: Seq<u8>,
}

impl View for SenderAccount {
    type V = SenderAccountView;

    open spec fn view(&self) -> SenderAccountView {
        SenderAccountView {
            version: self.version,
            reward_manager: self.reward_manager@,
            eth_address: self.eth_address@,
            operator: self.operator@,
        }
    }
}

impl SenderAccountView {
    /// Whether the record is initialized.
    pub open spec fn initialized(self) -> bool {
        self.version == INITIALIZED_VERSION
    }

    /// Whether the record can be stored: a known version, a reward manager
    /// of 32 bytes, an address and an operator of 20.
    pub open spec fn well_formed(self) -> bool {
        self.version <= CLEARED_VERSION && self.reward_manager.len() == 32
            && self.eth_address.len() == 20 && self.operator.len() == 20
    }

    /// The 73 bytes that stand for the record: version, reward manager,
    /// address, operator.
    pub open spec fn encode(self) -> Seq<u8> {
        seq![self.version] + self.reward_manager + self.eth_address + self.operator
    }

    /// The record after it was deleted.
    pub open spec fn cleared(self) -> SenderAccountView {
        SenderAccountView {
            version: CLEARED_VERSION,
            reward_manager: self.reward_manager,
            eth_address: self.eth_address,
            operator: self.operator,
        }
    }
}

impl SenderAccount {
    /// Size of the stored record.
    pub const LEN: usize = 73;

    /// An initialized sender.
    pub fn new(reward_manager: [u8; 32], eth_address: [u8; 20], operator: [u8; 20]) -> (r: Self)
        ensures
            r == (SenderAccount {
                version: INITIALIZED_VERSION,
                reward_manager,
                eth_address,
                operator,
            }),
    {
        SenderAccount { version: INITIALIZED_VERSION, reward_manager, eth_address, operator }
    }

    /// The record that stored data holds: 73 bytes with a known version.
    pub open spec fn decode(s: Seq<u8>) -> Result<SenderAccountView, ProgramError> {
        if s.len() == 73 && s[0] <= CLEARED_VERSION {
            Ok(
                SenderAccountView {
                    version: s[0],
                    reward_manager: s.subrange(1, 33),
                    eth_address: s.subrange(33, 53),
                    operator: s.subrange(53, 73),
                },
            )
        } else {
            Err(ProgramError::DecodeError)
        }
    }

    /// Whether the record is initialized.
    pub fn is_initialized(&self) -> (r: bool)
        ensures
            r == self@.initialized(),
    {
        self.version == INITIALIZED_VERSION
    }

    /// The record as the evaluator reads it.
    pub fn identity(&self) -> (r: AuthorizedIdentity)
        ensures
            r@ == (crate::attestation::AuthorizedIdentityView {
                initialized: self@.initialized(),
                group: self.reward_manager@,
                eth_address: self.eth_address@,
                operator: Some(self.operator@),
            }),
    {
        AuthorizedIdentity {
            initialized: self.is_initialized(),
            group: self.reward_manager,
            eth_address: self.eth_address,
            operator: Some(self.operator),
        }
    }

    /// Reads a record from stored data.
    pub fn try_from_slice(data: &[u8]) -> (r: Result<Self, ProgramError>)
        ensures
            crate::error::yields(r, Self::decode(data@)),
    {
        if data.len() != 73 {
            return Err(ProgramError::DecodeError);
        }
        if data[0] > CLEARED_VERSION {
            return Err(ProgramError::DecodeError);
        }
        Ok(
            SenderAccount {
                version: data[0],
                reward_manager: array32_at(data, 1),
                eth_address: array20_at(data, 33),
                operator: array20_at(data, 53),
            },
        )
    }

    /// Writes the record in 73 bytes.
    pub fn try_to_vec(&self) -> (r: Vec<u8>)
        ensures
            r@ == self@.encode(),
            r@.len() == 73,
    {
        let mut out: Vec<u8> = Vec::new();
        out.push(self.version);
        append(&mut out, self.reward_manager.as_slice());
        append(&mut out, self.eth_address.as_slice());
        append(&mut out, self.operator.as_slice());
        out
    }

    /// Reading what was written gives the record back.
    pub proof fn lemma_decode_encode(v: SenderAccountView)
        requires
            v.well_formed(),
        ensures
            Self::decode(v.encode()) == Ok::<SenderAccountView, ProgramError>(v),
    {
        assert(v.encode().subrange(1, 33) =~= v.reward_manager);
        assert(v.encode().subrange(33, 53) =~= v.eth_address);
        assert(v.encode().subrange(53, 73) =~= v.operator);
    }
}

} // verus!
