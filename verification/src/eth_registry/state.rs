//! The persisted records: signer groups and their valid signers.

use crate::attestation::AuthorizedIdentity;
use crate::codec::{append, array20_at, array32_at};
use crate::error::ProgramError;
use vstd::prelude::*;

verus! {

/// The version of a record that was never initialized.
pub const UNINITIALIZED_VERSION: u8 = 0;

/// The version of an initialized record.
pub const INITIALIZED_VERSION: u8 = 1;

/// The version of a signer record that was cleared. A cleared record is not
/// initialized, and cannot be initialized again: its account has to be
/// closed and created anew.
pub const CLEARED_VERSION: u8 = 2;

/// A group of signers with its owner.
#[derive(Clone, Copy, Debug)]
pub struct SignerGroup {
    /// The record's version.
    pub version: u8,
    /// The group's owner.
    pub owner: [u8; 32],
    /// Whether the owner may still add and remove signers. Once false it
    /// stays false.
    pub owner_enabled: bool,
}

/// A signer group as a mathematical value.
pub struct SignerGroupView {
    pub version: u8,
    pub owner: Seq<u8>,
    pub owner_enabled: bool,
}

impl View for SignerGroup {
    type V = SignerGroupView;

    open spec fn view(&self) -> SignerGroupView {
        SignerGroupView {
            version: self.version,
            owner: self.owner@,
            owner_enabled: self.owner_enabled,
        }
    }
}

impl SignerGroupView {
    /// Whether the record is initialized.
    pub open spec fn initialized(self) -> bool {
        self.version == INITIALIZED_VERSION
    }

    /// Whether the record can be stored: a known version and an owner of 32
    /// bytes.
    pub open spec fn well_formed(self) -> bool {
        (self.version == UNINITIALIZED_VERSION || self.version == INITIALIZED_VERSION)
            && self.owner.len() == 32
    }

    /// The 34 bytes that stand for the record: version, owner, and one byte
    /// for the flag.
    pub open spec fn encode(self) -> Seq<u8> {
        seq![self.version] + self.owner + seq![if self.owner_enabled { 1u8 } else { 0u8 }]
    }
}

impl SignerGroup {
    /// Size of the stored record.
    pub const LEN: usize = 34;

    /// The record that stored data holds: 34 bytes with a known version and
    /// a flag byte of 0 or 1.
    pub open spec fn decode(s: Seq<u8>) -> Result<SignerGroupView, ProgramError> {
        if s.len() == 34 && (s[0] == UNINITIALIZED_VERSION || s[0] == INITIALIZED_VERSION) && (s[33]
            == 0 || s[33] == 1) {
            Ok(SignerGroupView { version: s[0], owner: s.subrange(1, 33), owner_enabled: s[33] == 1 })
        } else {
            Err(ProgramError::DecodeError)
        }
    }

    /// Whether the record is initialized.
    pub fn is_initialized(&self) -> (r: bool)
        ensures
            r == self@.initialized(),
    {
        self.version == INITIALIZED_VERSION
    }

    /// Reads a record from stored data.
    pub fn try_from_slice(data: &[u8]) -> (r: Result<Self, ProgramError>)
        ensures
            crate::error::yields(r, Self::decode(data@)),
    {
        if data.len() != 34 {
            return Err(ProgramError::DecodeError);
        }
        if data[0] != UNINITIALIZED_VERSION && data[0] != INITIALIZED_VERSION {
            return Err(ProgramError::DecodeError);
        }
        if data[33] != 0 && data[33] != 1 {
            return Err(ProgramError::DecodeError);
        }
        Ok(SignerGroup { version: data[0], owner: array32_at(data, 1), owner_enabled: data[33] == 1 })
    }

    /// Writes the record in 34 bytes.
    pub fn try_to_vec(&self) -> (r: Vec<u8>)
        ensures
            r@ == self@.encode(),
            r@.len() == 34,
    {
        let mut out: Vec<u8> = Vec::new();
        out.push(self.version);
        append(&mut out, self.owner.as_slice());
        out.push(if self.owner_enabled { 1 } else { 0 });
        out
    }

    /// Reading what was written gives the record back.
    pub proof fn lemma_decode_encode(v: SignerGroupView)
        requires
            v.well_formed(),
        ensures
            Self::decode(v.encode()) == Ok::<SignerGroupView, ProgramError>(v),
    {
        assert(v.encode().subrange(1, 33) =~= v.owner);
    }
}

/// A member of a signer group.
#[derive(Clone, Copy, Debug)]
pub struct ValidSigner {
    /// The record's version.
    pub version: u8,
    /// The group that the signer belongs to.
    pub signer_group: [u8; 32],
    /// The signer's external address.
    pub eth_address: [u8; 20],
}

/// A valid signer as a mathematical value.
pub struct ValidSignerView {
    pub version: u8,
    pub signer_group: Seq<u8>,
    pub eth_address: Seq<u8>,
}

impl View for ValidSigner {
    type V = ValidSignerView;

    open spec fn view(&self) -> ValidSignerView {
        ValidSignerView {
            version: self.version,
            signer_group: self.signer_group@,
            eth_address: self.eth_address@,
        }
    }
}

impl ValidSignerView {
    /// Whether the record is initialized.
    pub open spec fn initialized(self) -> bool {
        self.version == INITIALIZED_VERSION
    }

    /// Whether the record can be stored: a known version, a group of 32 and
    /// an address of 20 bytes.
    pub open spec fn well_formed(self) -> bool {
        self.version <= CLEARED_VERSION && self.signer_group.len() == 32 && self.eth_address.len()
            == 20
    }

    /// The 53 bytes that stand for the record: version, group, address.
    pub open spec fn encode(self) -> Seq<u8> {
        seq![self.version] + self.signer_group + self.eth_address
    }

    /// The record after it was cleared.
    pub open spec fn cleared(self) -> ValidSignerView {
        ValidSignerView {
            version: CLEARED_VERSION,
            signer_group: self.signer_group,
            eth_address: self.eth_address,
        }
    }
}

impl ValidSigner {
    /// Size of the stored record.
    pub const LEN: usize = 53;

    /// The record that stored data holds: 53 bytes with a known version.
    pub open spec fn decode(s: Seq<u8>) -> Result<ValidSignerView, ProgramError> {
        if s.len() == 53 && s[0] <= CLEARED_VERSION {
            Ok(
                ValidSignerView {
                    version: s[0],
                    signer_group: s.subrange(1, 33),
                    eth_address: s.subrange(33, 53),
                },
            )
        } else {
            Err(ProgramError::DecodeError)
        }
    }

    /// Whether the record is initialized.
    pub fn is_initialized(&self) -> (r: bool)
        ensures
            r == self@.initialized(),
    {
        self.version == INITIALIZED_VERSION
    }

    /// The record as the evaluator reads it: a signer has no operator.
    pub fn identity(&self) -> (r: AuthorizedIdentity)
        ensures
            r.initialized == self@.initialized(),
            r.group == self.signer_group,
            r.eth_address == self.eth_address,
            r.operator is None,
    {
        AuthorizedIdentity {
            initialized: self.is_initialized(),
            group: self.signer_group,
            eth_address: self.eth_address,
            operator: None,
        }
    }

    /// Reads a record from stored data.
    pub fn try_from_slice(data: &[u8]) -> (r: Result<Self, ProgramError>)
        ensures
            crate::error::yields(r, Self::decode(data@)),
    {
        if data.len() != 53 {
            return Err(ProgramError::DecodeError);
        }
        if data[0] > CLEARED_VERSION {
            return Err(ProgramError::DecodeError);
        }
        Ok(
            ValidSigner {
                version: data[0],
                signer_group: array32_at(data, 1),
                eth_address: array20_at(data, 33),
            },
        )
    }

    /// Writes the record in 53 bytes.
    pub fn try_to_vec(&self) -> (r: Vec<u8>)
        ensures
            r@ == self@.encode(),
            r@.len() == 53,
    {
        let mut out: Vec<u8> = Vec::new();
        out.push(self.version);
        append(&mut out, self.signer_group.as_slice());
        append(&mut out, self.eth_address.as_slice());
        out
    }

    /// Reading what was written gives the record back.
    pub proof fn lemma_decode_encode(v: ValidSignerView)
        requires
            v.well_formed(),
        ensures
            Self::decode(v.encode()) == Ok::<ValidSignerView, ProgramError>(v),
    {
        assert(v.encode().subrange(1, 33) =~= v.signer_group);
        assert(v.encode().subrange(33, 53) =~= v.eth_address);
    }
}

/// What the data of an account of the registry holds.
#[derive(Clone, Copy, Debug)]
pub enum Record {
    /// A signer group.
    Group(SignerGroup),
    /// A valid signer.
    Signer(ValidSigner),
    /// Neither.
    Unknown,
}

/// What the data of an account holds, as a mathematical value.
pub enum RecordView {
    Group(SignerGroupView),
    Signer(ValidSignerView),
    Unknown,
}

impl View for Record {
    type V = RecordView;

    open spec fn view(&self) -> RecordView {
        match *self {
            Record::Group(group) => RecordView::Group(group@),
            Record::Signer(signer) => RecordView::Signer(signer@),
            Record::Unknown => RecordView::Unknown,
        }
    }
}

/// The record that the data of an account holds. The two kinds differ in
/// length, so no data holds both.
pub open spec fn record_of(s: Seq<u8>) -> RecordView {
    match SignerGroup::decode(s) {
        Ok(group) => RecordView::Group(group),
        Err(_) => match ValidSigner::decode(s) {
            Ok(signer) => RecordView::Signer(signer),
            Err(_) => RecordView::Unknown,
        },
    }
}

/// Tells what the data of an account of the registry holds.
pub fn read_record(data: &[u8]) -> (r: Record)
    ensures
        r@ == record_of(data@),
{
    match SignerGroup::try_from_slice(data) {
        Ok(group) => Record::Group(group),
        Err(_) => match ValidSigner::try_from_slice(data) {
            Ok(signer) => Record::Signer(signer),
            Err(_) => Record::Unknown,
        },
    }
}

} // verus!
