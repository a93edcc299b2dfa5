//! The signed transfer payload and the persisted replay counter.

use crate::codec::{array32_at, append, read_u64, write_u64};
use crate::error::ProgramError;
use vstd::bytes::{
    lemma_auto_spec_u64_to_from_le_bytes, spec_u64_from_le_bytes, spec_u64_to_le_bytes,
};
use vstd::prelude::*;

verus! {

/// What the owner of a claimable balance signs: the destination, the amount
/// and the nonce that the signature may be used with.
#[derive(Clone, Copy, Debug)]
pub struct TransferInstructionData {
    /// The destination account of the transfer.
    pub target_pubkey: [u8; 32],
    /// The amount to transfer.
    pub amount: u64,
    /// The nonce that the signer's counter must stand at.
    pub nonce: u64,
}

/// A transfer payload as a mathematical value.
pub struct TransferInstructionDataView {
    pub target_pubkey: Seq<u8>,
    pub amount: u64,
    pub nonce: u64,
}

impl View for TransferInstructionData {
    type V = TransferInstructionDataView;

    open spec fn view(&self) -> TransferInstructionDataView {
        TransferInstructionDataView {
            target_pubkey: self.target_pubkey@,
            amount: self.amount,
            nonce: self.nonce,
        }
    }
}

impl TransferInstructionData {
    /// Size of the encoded payload.
    pub const LEN: usize = 48;

    /// The payload that 48 bytes stand for: the destination, then amount and
    /// nonce, each little-endian.
    pub open spec fn decode(s: Seq<u8>) -> TransferInstructionDataView
        recommends
            s.len() == 48,
    {
        TransferInstructionDataView {
            target_pubkey: s.subrange(0, 32),
            amount: spec_u64_from_le_bytes(s.subrange(32, 40)),
            nonce: spec_u64_from_le_bytes(s.subrange(40, 48)),
        }
    }

    /// The 48 bytes that stand for a payload.
    pub open spec fn encode(v: TransferInstructionDataView) -> Seq<u8> {
        v.target_pubkey + spec_u64_to_le_bytes(v.amount) + spec_u64_to_le_bytes(v.nonce)
    }

    /// Reads a payload from exactly 48 bytes.
    pub fn try_from_slice(data: &[u8]) -> (r: Result<Self, ProgramError>)
        ensures
            data@.len() == 48 ==> (r matches Ok(t) && t@ == Self::decode(data@)),
            data@.len() != 48 ==> (r matches Err(e) && e == ProgramError::DecodeError),
    {
        if data.len() != 48 {
            return Err(ProgramError::DecodeError);
        }
        Ok(
            TransferInstructionData {
                target_pubkey: array32_at(data, 0),
                amount: read_u64(data, 32),
                nonce: read_u64(data, 40),
            },
        )
    }

    /// Writes the payload in 48 bytes.
    pub fn try_to_vec(&self) -> (r: Vec<u8>)
        ensures
            r@ == Self::encode(self@),
            r@.len() == 48,
    {
        let mut out: Vec<u8> = Vec::new();
        append(&mut out, self.target_pubkey.as_slice());
        write_u64(&mut out, self.amount);
        write_u64(&mut out, self.nonce);
        proof {
            lemma_auto_spec_u64_to_from_le_bytes();
        }
        out
    }

    /// Reading what was written gives the payload back.
    pub proof fn lemma_decode_encode(v: TransferInstructionDataView)
        requires
            v.target_pubkey.len() == 32,
        ensures
            Self::encode(v).len() == 48,
            Self::decode(Self::encode(v)) == v,
    {
        lemma_auto_spec_u64_to_from_le_bytes();
        let e = Self::encode(v);
        assert(e.subrange(0, 32) =~= v.target_pubkey);
        assert(e.subrange(32, 40) =~= spec_u64_to_le_bytes(v.amount));
        assert(e.subrange(40, 48) =~= spec_u64_to_le_bytes(v.nonce));
    }
}

/// The version of an initialized counter record.
pub const NONCE_ACCOUNT_VERSION: u8 = 1;

/// The persisted replay counter of one signing identity.
#[derive(Clone, Copy, Debug, PartialEq, Eq, Structural)]
pub struct NonceAccount {
    /// The record's version; an initialized record has version 1.
    pub version: u8,
    /// The nonce that the next attestation must carry.
    pub nonce: u64,
}

impl NonceAccount {
    /// Size of the stored record.
    pub const LEN: usize = 9;

    /// A fresh counter: initialized, at 0.
    pub fn new() -> (r: Self)
        ensures
            r == (NonceAccount { version: NONCE_ACCOUNT_VERSION, nonce: 0 }),
    {
        NonceAccount { version: NONCE_ACCOUNT_VERSION, nonce: 0 }
    }

    /// Whether the record is initialized.
    pub open spec fn initialized(self) -> bool {
        self.version == NONCE_ACCOUNT_VERSION
    }

    /// Whether the record is initialized.
    pub fn is_initialized(&self) -> (r: bool)
        ensures
            r == self.initialized(),
    {
        self.version == NONCE_ACCOUNT_VERSION
    }

    /// The record that nine bytes stand for: the version, then the nonce,
    /// little-endian.
    pub open spec fn decode(s: Seq<u8>) -> Self
        recommends
            s.len() == 9,
    {
        NonceAccount { version: s[0], nonce: spec_u64_from_le_bytes(s.subrange(1, 9)) }
    }

    /// The nine bytes that stand for the record.
    pub open spec fn encode(self) -> Seq<u8> {
        seq![self.version] + spec_u64_to_le_bytes(self.nonce)
    }

    /// The initialized record that stored data holds: the data must be nine
    /// bytes of an initialized record.
    pub open spec fn stored(s: Seq<u8>) -> Result<Self, ProgramError> {
        if s.len() == 9 && Self::decode(s).initialized() {
            Ok(Self::decode(s))
        } else {
            Err(ProgramError::DecodeError)
        }
    }

    /// Reads an initialized record from stored data.
    pub fn unpack(data: &[u8]) -> (r: Result<Self, ProgramError>)
        ensures
            r == Self::stored(data@),
    {
        if data.len() != 9 {
            return Err(ProgramError::DecodeError);
        }
        let record = NonceAccount { version: data[0], nonce: read_u64(data, 1) };
        if !record.is_initialized() {
            return Err(ProgramError::DecodeError);
        }
        Ok(record)
    }

    /// The counter that a counter account holds. An account without a
    /// reserved balance does not exist yet and counts as a fresh counter.
    pub open spec fn current(lamports: u64, data: Seq<u8>) -> Result<Self, ProgramError> {
        if lamports == 0 {
            Ok(NonceAccount { version: NONCE_ACCOUNT_VERSION, nonce: 0 })
        } else {
            Self::stored(data)
        }
    }

    /// Whether the counter accepts an attestation that carries `nonce`: the
    /// nonce must be the counter exactly, and the counter must be able to
    /// advance.
    pub open spec fn accepts(self, nonce: u64) -> bool {
        nonce == self.nonce && self.nonce < u64::MAX
    }

    /// The counter after one accepted attestation.
    pub open spec fn advanced(self) -> Self
        recommends
            self.nonce < u64::MAX,
    {
        NonceAccount { version: self.version, nonce: (self.nonce + 1) as u64 }
    }

    /// What an attestation that carries `nonce` does to the counter.
    pub open spec fn advance_outcome(self, nonce: u64) -> Result<Self, ProgramError> {
        if self.accepts(nonce) {
            Ok(self.advanced())
        } else {
            Err(ProgramError::NonceVerificationError)
        }
    }

    /// Reads the counter that a counter account holds.
    pub fn load(lamports: u64, data: &[u8]) -> (r: Result<Self, ProgramError>)
        ensures
            r == Self::current(lamports, data@),
    {
        if lamports == 0 {
            Ok(NonceAccount::new())
        } else {
            NonceAccount::unpack(data)
        }
    }

    /// Accepts an attestation that carries `nonce` and advances the counter
    /// by one, or rejects it and leaves the counter as it is.
    pub fn advance(&self, nonce: u64) -> (r: Result<Self, ProgramError>)
        ensures
            r == self.advance_outcome(nonce),
    {
        if nonce != self.nonce || self.nonce == u64::MAX {
            return Err(ProgramError::NonceVerificationError);
        }
        Ok(NonceAccount { version: self.version, nonce: self.nonce + 1 })
    }

    /// Writes the record in nine bytes.
    pub fn pack(&self) -> (r: Vec<u8>)
        ensures
            r@ == self.encode(),
            r@.len() == 9,
    {
        let mut out: Vec<u8> = Vec::new();
        out.push(self.version);
        write_u64(&mut out, self.nonce);
        proof {
            lemma_auto_spec_u64_to_from_le_bytes();
        }
        out
    }

    /// Reading what was written gives the record back.
    pub proof fn lemma_decode_encode(self)
        ensures
            self.encode().len() == 9,
            Self::decode(self.encode()) == self,
            self.initialized() ==> Self::stored(self.encode()) == Ok::<Self, ProgramError>(self),
    {
        lemma_auto_spec_u64_to_from_le_bytes();
        assert(self.encode().subrange(1, 9) =~= spec_u64_to_le_bytes(self.nonce));
    }
}

} // verus!
