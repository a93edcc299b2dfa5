//! Instruction types.

use crate::account::{
    meta_views, readonly, writable, AccountMeta, AccountMetaView, Instruction, InstructionView,
};
use crate::codec::{append, array20_at, copy_range, read_u32, write_u32};
use crate::error::{yields, ProgramError};
use crate::ledger::{
    spec_sysvar_clock_id, spec_sysvar_instructions_id, sysvar_clock_id, sysvar_instructions_id,
};
use vstd::bytes::{lemma_auto_spec_u32_to_from_le_bytes, spec_u32_from_le_bytes, spec_u32_to_le_bytes};
use vstd::prelude::*;

verus! {

/// Signature with message to validate.
#[derive(Clone, Debug)]
pub struct SignatureData {
    /// Recovery id of the signature.
    pub recovery_id: u8,
    /// Signed message.
    pub message: Vec<u8>,
}

/// A signature's data as a mathematical value.
pub struct SignatureDataView {
    pub recovery_id: u8,
    pub message: Seq<u8>,
}

impl View for SignatureData {
    type V = SignatureDataView;

    open spec fn view(&self) -> SignatureDataView {
        SignatureDataView { recovery_id: self.recovery_id, message: self.message@ }
    }
}

impl SignatureDataView {
    /// Whether the data can be written: the message's length fits four
    /// bytes.
    pub open spec fn fits(self) -> bool {
        self.message.len() <= u32::MAX
    }

    /// The bytes that stand for the data: the recovery id, the message's
    /// length in four little-endian bytes, the message.
    pub open spec fn encode(self) -> Seq<u8> {
        seq![self.recovery_id] + spec_u32_to_le_bytes(self.message.len() as u32) + self.message
    }

    /// The data that stands at `at` in `s`, with the place where it ends;
    /// `None` where `s` is too short.
    pub open spec fn decode_at(s: Seq<u8>, at: int) -> Option<(SignatureDataView, int)> {
        if 0 <= at && at + 5 <= s.len() {
            let n = spec_u32_from_le_bytes(s.subrange(at + 1, at + 5)) as int;
            if at + 5 + n <= s.len() {
                Some(
                    (
                        SignatureDataView {
                            recovery_id: s[at],
                            message: s.subrange(at + 5, at + 5 + n),
                        },
                        at + 5 + n,
                    ),
                )
            } else {
                None
            }
        } else {
            None
        }
    }

    /// What was written at the end of `prefix` is read back from there.
    pub proof fn lemma_decode_encode(self, prefix: Seq<u8>, suffix: Seq<u8>)
        requires
            self.fits(),
        ensures
            Self::decode_at(prefix + self.encode() + suffix, prefix.len() as int) == Some(
                (self, (prefix.len() + self.encode().len()) as int),
            ),
            self.encode().len() == 5 + self.message.len(),
    {
        lemma_auto_spec_u32_to_from_le_bytes();
        let s = prefix + self.encode() + suffix;
        let at = prefix.len() as int;
        assert(s.subrange(at + 1, at + 5) =~= spec_u32_to_le_bytes(self.message.len() as u32));
        assert(s.subrange(at + 5, at + 5 + self.message.len()) =~= self.message);
    }
}

impl SignatureData {
    /// Reads the data that stands at `at`.
    pub fn read_at(data: &[u8], at: usize) -> (r: Option<(SignatureData, usize)>)
        ensures
            match SignatureDataView::decode_at(data@, at as int) {
                None => r is None,
                Some((v, end)) => r matches Some(found) && found.0@ == v && found.1 == end,
            },
    {
        if at > data.len() || data.len() - at < 5 {
            return None;
        }
        let n = read_u32(data, at + 1) as usize;
        if data.len() - at - 5 < n {
            return None;
        }
        let message = copy_range(data, at + 5, at + 5 + n);
        Some((SignatureData { recovery_id: data[at], message }, at + 5 + n))
    }

    /// Appends the data to `out`. Fails where the message is too long to
    /// write.
    pub fn write_to(&self, out: &mut Vec<u8>) -> (r: Result<(), ProgramError>)
        ensures
            self@.fits() ==> r is Ok && final(out)@ == old(out)@ + self@.encode(),
            !self@.fits() ==> r == Err::<(), ProgramError>(ProgramError::DecodeError)
                && final(out)@ == old(out)@,
    {
        if self.message.len() > u32::MAX as usize {
            return Err(ProgramError::DecodeError);
        }
        out.push(self.recovery_id);
        write_u32(out, self.message.len() as u32);
        append(out, self.message.as_slice());
        proof {
            assert(out@ =~= old(out)@ + self@.encode());
        }
        Ok(())
    }
}

/// Instructions supported by the registry.
#[derive(Clone, Debug)]
pub enum ColivingInstruction {
    /// Create a new signer group.
    ///
    /// 0. `[w]` the signer group to create
    /// 1. `[]` the group's owner
    InitSignerGroup,
    /// Create a new valid signer.
    ///
    /// 0. `[w]` uninitialized valid signer account
    /// 1. `[]` the group for the signer to join
    /// 2. `[s]` the group's owner
    InitValidSigner([u8; 20]),
    /// Remove a valid signer from its group.
    ///
    /// 0. `[w]` initialized valid signer to remove
    /// 1. `[]` the group to remove it from
    /// 2. `[s]` the group's owner
    ClearValidSigner,
    /// Validate three signatures and remove a valid signer.
    ///
    /// 0. `[]` initialized valid signer 1
    /// 1. `[]` initialized valid signer 2
    /// 2. `[]` initialized valid signer 3
    /// 3. `[]` the group that the signers belong to
    /// 4. `[w]` initialized valid signer to remove
    ValidateMultipleSignaturesClearValidSigner(SignatureData, SignatureData, SignatureData),
    /// Validate a signature issued by a valid signer.
    ///
    /// 0. `[]` initialized valid signer
    /// 1. `[]` the group that the signer belongs to
    ValidateSignature(SignatureData),
    /// Disable the owner of a signer group.
    ///
    /// 0. `[w]` the signer group
    /// 1. `[s]` the group's owner
    DisableSignerGroupOwner,
    /// Validate three signatures and add a valid signer.
    ///
    /// 0. `[]` initialized valid signer 1
    /// 1. `[]` initialized valid signer 2
    /// 2. `[]` initialized valid signer 3
    /// 3. `[]` the group that the signers belong to
    /// 4. `[w]` the incoming valid signer account
    ValidateMultipleSignaturesAddSigner(SignatureData, SignatureData, SignatureData, [u8; 20]),
}

/// An instruction of the registry as a mathematical value.
pub enum ColivingInstructionView {
    InitSignerGroup,
    InitValidSigner(Seq<u8>),
    ClearValidSigner,
    ValidateMultipleSignaturesClearValidSigner(
        SignatureDataView,
        SignatureDataView,
        SignatureDataView,
    ),
    ValidateSignature(SignatureDataView),
    DisableSignerGroupOwner,
    ValidateMultipleSignaturesAddSigner(
        SignatureDataView,
        SignatureDataView,
        SignatureDataView,
        Seq<u8>,
    ),
}

impl View for ColivingInstruction {
    type V = ColivingInstructionView;

    open spec fn view(&self) -> ColivingInstructionView {
        match *self {
            ColivingInstruction::InitSignerGroup => ColivingInstructionView::InitSignerGroup,
            ColivingInstruction::InitValidSigner(a) => ColivingInstructionView::InitValidSigner(a@),
            ColivingInstruction::ClearValidSigner => ColivingInstructionView::ClearValidSigner,
            ColivingInstruction::ValidateMultipleSignaturesClearValidSigner(a, b, c) => {
                ColivingInstructionView::ValidateMultipleSignaturesClearValidSigner(a@, b@, c@)
            },
            ColivingInstruction::ValidateSignature(a) => ColivingInstructionView::ValidateSignature(
                a@,
            ),
            ColivingInstruction::DisableSignerGroupOwner => {
                ColivingInstructionView::DisableSignerGroupOwner
            },
            ColivingInstruction::ValidateMultipleSignaturesAddSigner(a, b, c, e) => {
                ColivingInstructionView::ValidateMultipleSignaturesAddSigner(a@, b@, c@, e@)
            },
        }
    }
}

/// The three signature data that stand one behind the other from `at` on,
/// with the place where the last one ends.
pub open spec fn decode_three(s: Seq<u8>, at: int) -> Option<
    (SignatureDataView, SignatureDataView, SignatureDataView, int),
> {
    match SignatureDataView::decode_at(s, at) {
        None => None,
        Some((a, after_a)) => match SignatureDataView::decode_at(s, after_a) {
            None => None,
            Some((b, after_b)) => match SignatureDataView::decode_at(s, after_b) {
                None => None,
                Some((c, after_c)) => Some((a, b, c, after_c)),
            },
        },
    }
}

impl ColivingInstructionView {
    /// Whether the instruction can be written: every message's length fits
    /// four bytes.
    pub open spec fn fits(self) -> bool {
        match self {
            ColivingInstructionView::ValidateMultipleSignaturesClearValidSigner(a, b, c) => a.fits()
                && b.fits() && c.fits(),
            ColivingInstructionView::ValidateSignature(a) => a.fits(),
            ColivingInstructionView::ValidateMultipleSignaturesAddSigner(a, b, c, _) => a.fits()
                && b.fits() && c.fits(),
            _ => true,
        }
    }

    /// The payload that stands for the instruction: one tag byte, the number
    /// of the variant, then the variant's fields in order.
    pub open spec fn encode(self) -> Seq<u8> {
        match self {
            ColivingInstructionView::InitSignerGroup => seq![0u8],
            ColivingInstructionView::InitValidSigner(a) => seq![1u8] + a,
            ColivingInstructionView::ClearValidSigner => seq![2u8],
            ColivingInstructionView::ValidateMultipleSignaturesClearValidSigner(a, b, c) => seq![
                3u8,
            ] + a.encode() + b.encode() + c.encode(),
            ColivingInstructionView::ValidateSignature(a) => seq![4u8] + a.encode(),
            ColivingInstructionView::DisableSignerGroupOwner => seq![5u8],
            ColivingInstructionView::ValidateMultipleSignaturesAddSigner(a, b, c, e) => seq![6u8]
                + a.encode() + b.encode() + c.encode() + e,
        }
    }
}

impl ColivingInstruction {
    /// The instruction that a payload stands for. The payload must hold
    /// exactly one instruction and nothing more.
    pub open spec fn decode(s: Seq<u8>) -> Result<ColivingInstructionView, ProgramError> {
        if s.len() == 1 && s[0] == 0 {
            Ok(ColivingInstructionView::InitSignerGroup)
        } else if s.len() == 21 && s[0] == 1 {
            Ok(ColivingInstructionView::InitValidSigner(s.subrange(1, 21)))
        } else if s.len() == 1 && s[0] == 2 {
            Ok(ColivingInstructionView::ClearValidSigner)
        } else if s.len() >= 1 && s[0] == 3 {
            match decode_three(s, 1) {
                Some((a, b, c, end)) if end == s.len() => Ok(
                    ColivingInstructionView::ValidateMultipleSignaturesClearValidSigner(a, b, c),
                ),
                _ => Err(ProgramError::DecodeError),
            }
        } else if s.len() >= 1 && s[0] == 4 {
            match SignatureDataView::decode_at(s, 1) {
                Some((a, end)) if end == s.len() => Ok(
                    ColivingInstructionView::ValidateSignature(a),
                ),
                _ => Err(ProgramError::DecodeError),
            }
        } else if s.len() == 1 && s[0] == 5 {
            Ok(ColivingInstructionView::DisableSignerGroupOwner)
        } else if s.len() >= 1 && s[0] == 6 {
            match decode_three(s, 1) {
                Some((a, b, c, end)) if end + 20 == s.len() => Ok(
                    ColivingInstructionView::ValidateMultipleSignaturesAddSigner(
                        a,
                        b,
                        c,
                        s.subrange(end, end + 20),
                    ),
                ),
                _ => Err(ProgramError::DecodeError),
            }
        } else {
            Err(ProgramError::DecodeError)
        }
    }

    /// Reads three signature data that stand one behind the other.
    fn read_three(data: &[u8], at: usize) -> (r: Option<
        (SignatureData, SignatureData, SignatureData, usize),
    >)
        ensures
            match decode_three(data@, at as int) {
                None => r is None,
                Some((a, b, c, end)) => r matches Some(found) && found.0@ == a && found.1@ == b
                    && found.2@ == c && found.3 == end && end <= data@.len(),
            },
    {
        let (a, after_a) = match SignatureData::read_at(data, at) {
            Some(found) => found,
            None => { return None; },
        };
        let (b, after_b) = match SignatureData::read_at(data, after_a) {
            Some(found) => found,
            None => { return None; },
        };
        let (c, after_c) = match SignatureData::read_at(data, after_b) {
            Some(found) => found,
            None => { return None; },
        };
        Some((a, b, c, after_c))
    }

    /// Reads an instruction from its payload.
    pub fn try_from_slice(data: &[u8]) -> (r: Result<Self, ProgramError>)
        ensures
            yields(r, Self::decode(data@)),
    {
        if data.len() == 0 {
            return Err(ProgramError::DecodeError);
        }
        let tag = data[0];
        if tag == 0 {
            if data.len() == 1 {
                Ok(ColivingInstruction::InitSignerGroup)
            } else {
                Err(ProgramError::DecodeError)
            }
        } else if tag == 1 {
            if data.len() == 21 {
                Ok(ColivingInstruction::InitValidSigner(array20_at(data, 1)))
            } else {
                Err(ProgramError::DecodeError)
            }
        } else if tag == 2 {
            if data.len() == 1 {
                Ok(ColivingInstruction::ClearValidSigner)
            } else {
                Err(ProgramError::DecodeError)
            }
        } else if tag == 3 {
            match Self::read_three(data, 1) {
                Some((a, b, c, end)) => {
                    if end == data.len() {
                        Ok(ColivingInstruction::ValidateMultipleSignaturesClearValidSigner(a, b, c))
                    } else {
                        Err(ProgramError::DecodeError)
                    }
                },
                None => Err(ProgramError::DecodeError),
            }
        } else if tag == 4 {
            match SignatureData::read_at(data, 1) {
                Some((a, end)) => {
                    if end == data.len() {
                        Ok(ColivingInstruction::ValidateSignature(a))
                    } else {
                        Err(ProgramError::DecodeError)
                    }
                },
                None => Err(ProgramError::DecodeError),
            }
        } else if tag == 5 {
            if data.len() == 1 {
                Ok(ColivingInstruction::DisableSignerGroupOwner)
            } else {
                Err(ProgramError::DecodeError)
            }
        } else if tag == 6 {
            match Self::read_three(data, 1) {
                Some((a, b, c, end)) => {
                    if data.len() - end == 20 {
                        Ok(
                            ColivingInstruction::ValidateMultipleSignaturesAddSigner(
                                a,
                                b,
                                c,
                                array20_at(data, end),
                            ),
                        )
                    } else {
                        Err(ProgramError::DecodeError)
                    }
                },
                None => Err(ProgramError::DecodeError),
            }
        } else {
            Err(ProgramError::DecodeError)
        }
    }

    /// Writes the payload of the instruction. Fails where a message is too
    /// long to write.
    pub fn try_to_vec(&self) -> (r: Result<Vec<u8>, ProgramError>)
        ensures
            yields(
                r,
                if self@.fits() {
                    Ok(self@.encode())
                } else {
                    Err(ProgramError::DecodeError)
                },
            ),
    {
        let mut out: Vec<u8> = Vec::new();
        match self {
            ColivingInstruction::InitSignerGroup => {
                out.push(0);
            },
            ColivingInstruction::InitValidSigner(a) => {
                out.push(1);
                append(&mut out, a.as_slice());
            },
            ColivingInstruction::ClearValidSigner => {
                out.push(2);
            },
            ColivingInstruction::ValidateMultipleSignaturesClearValidSigner(a, b, c) => {
                out.push(3);
                match a.write_to(&mut out) {
                    Ok(()) => {},
                    Err(e) => { return Err(e); },
                }
                match b.write_to(&mut out) {
                    Ok(()) => {},
                    Err(e) => { return Err(e); },
                }
                match c.write_to(&mut out) {
                    Ok(()) => {},
                    Err(e) => { return Err(e); },
                }
            },
            ColivingInstruction::ValidateSignature(a) => {
                out.push(4);
                match a.write_to(&mut out) {
                    Ok(()) => {},
                    Err(e) => { return Err(e); },
                }
            },
            ColivingInstruction::DisableSignerGroupOwner => {
                out.push(5);
            },
            ColivingInstruction::ValidateMultipleSignaturesAddSigner(a, b, c, e) => {
                out.push(6);
                match a.write_to(&mut out) {
                    Ok(()) => {},
                    Err(e) => { return Err(e); },
                }
                match b.write_to(&mut out) {
                    Ok(()) => {},
                    Err(e) => { return Err(e); },
                }
                match c.write_to(&mut out) {
                    Ok(()) => {},
                    Err(e) => { return Err(e); },
                }
                append(&mut out, e.as_slice());
            },
        }
        proof {
            assert(out@ =~= self@.encode());
        }
        Ok(out)
    }
}

/// The instruction that carries `payload` to `program_id`, or the failure
/// to write the payload.
pub open spec fn carried(
    program_id: Seq<u8>,
    accounts: Seq<AccountMetaView>,
    payload: ColivingInstructionView,
) -> Result<InstructionView, ProgramError> {
    if payload.fits() {
        Ok(InstructionView { program_id, accounts, data: payload.encode() })
    } else {
        Err(ProgramError::DecodeError)
    }
}

/// Puts an instruction together from its payload and the accounts it
/// declares.
fn carry(program_id: &[u8; 32], accounts: Vec<AccountMeta>, payload: &ColivingInstruction) -> (r:
    Result<Instruction, ProgramError>)
    ensures
        yields(r, carried(program_id@, meta_views(accounts@), payload@)),
{
    match payload.try_to_vec() {
        Ok(data) => Ok(Instruction { program_id: *program_id, accounts, data }),
        Err(e) => Err(e),
    }
}

/// Creates an `InitSignerGroup` instruction.
pub fn init_signer_group(program_id: &[u8; 32], signer_group: &[u8; 32], owner: &[u8; 32]) -> (r:
    Result<Instruction, ProgramError>)
    ensures
        yields(
            r,
            carried(
                program_id@,
                seq![writable(signer_group@, false), readonly(owner@, false)],
                ColivingInstructionView::InitSignerGroup,
            ),
        ),
{
    let mut accounts: Vec<AccountMeta> = Vec::new();
    accounts.push(AccountMeta::new(*signer_group, false));
    accounts.push(AccountMeta::new_readonly(*owner, false));
    proof {
        assert(meta_views(accounts@) =~= seq![
            writable(signer_group@, false),
            readonly(owner@, false),
        ]);
    }
    carry(program_id, accounts, &ColivingInstruction::InitSignerGroup)
}

/// The accounts of an instruction that the owner of a group signs for one
/// valid signer.
pub open spec fn owner_gated_accounts(
    valid_signer_account: Seq<u8>,
    signer_group: Seq<u8>,
    groups_owner: Seq<u8>,
) -> Seq<AccountMetaView> {
    seq![
        writable(valid_signer_account, false),
        readonly(signer_group, false),
        readonly(groups_owner, true),
    ]
}

/// Lists the accounts of an instruction that the owner of a group signs.
fn list_owner_gated_accounts(
    valid_signer_account: &[u8; 32],
    signer_group: &[u8; 32],
    groups_owner: &[u8; 32],
) -> (r: Vec<AccountMeta>)
    ensures
        meta_views(r@) == owner_gated_accounts(valid_signer_account@, signer_group@, groups_owner@),
{
    let mut accounts: Vec<AccountMeta> = Vec::new();
    accounts.push(AccountMeta::new(*valid_signer_account, false));
    accounts.push(AccountMeta::new_readonly(*signer_group, false));
    accounts.push(AccountMeta::new_readonly(*groups_owner, true));
    proof {
        assert(meta_views(accounts@) =~= owner_gated_accounts(
            valid_signer_account@,
            signer_group@,
            groups_owner@,
        ));
    }
    accounts
}

/// Creates an `InitValidSigner` instruction.
pub fn init_valid_signer(
    program_id: &[u8; 32],
    valid_signer_account: &[u8; 32],
    signer_group: &[u8; 32],
    groups_owner: &[u8; 32],
    eth_pubkey: [u8; 20],
) -> (r: Result<Instruction, ProgramError>)
    ensures
        yields(
            r,
            carried(
                program_id@,
                owner_gated_accounts(valid_signer_account@, signer_group@, groups_owner@),
                ColivingInstructionView::InitValidSigner(eth_pubkey@),
            ),
        ),
{
    let accounts = list_owner_gated_accounts(valid_signer_account, signer_group, groups_owner);
    carry(program_id, accounts, &ColivingInstruction::InitValidSigner(eth_pubkey))
}

/// Creates a `ClearValidSigner` instruction.
pub fn clear_valid_signer(
    program_id: &[u8; 32],
    valid_signer_account: &[u8; 32],
    signer_group: &[u8; 32],
    groups_owner: &[u8; 32],
) -> (r: Result<Instruction, ProgramError>)
    ensures
        yields(
            r,
            carried(
                program_id@,
                owner_gated_accounts(valid_signer_account@, signer_group@, groups_owner@),
                ColivingInstructionView::ClearValidSigner,
            ),
        ),
{
    let accounts = list_owner_gated_accounts(valid_signer_account, signer_group, groups_owner);
    carry(program_id, accounts, &ColivingInstruction::ClearValidSigner)
}

/// The accounts of an instruction that three signers attest: the signers,
/// their group, the signer that the instruction adds or removes, and the
/// instructions and clock sysvars.
pub open spec fn attested_accounts(
    valid_signer_1: Seq<u8>,
    valid_signer_2: Seq<u8>,
    valid_signer_3: Seq<u8>,
    signer_group: Seq<u8>,
    target: Seq<u8>,
) -> Seq<AccountMetaView> {
    seq![
        readonly(valid_signer_1, false),
        readonly(valid_signer_2, false),
        readonly(valid_signer_3, false),
        readonly(signer_group, false),
        writable(target, false),
        readonly(spec_sysvar_instructions_id(), false),
        readonly(spec_sysvar_clock_id(), false),
    ]
}

/// Lists the accounts of an instruction that three signers attest.
fn list_attested_accounts(
    valid_signer_1: &[u8; 32],
    valid_signer_2: &[u8; 32],
    valid_signer_3: &[u8; 32],
    signer_group: &[u8; 32],
    target: &[u8; 32],
) -> (r: Vec<AccountMeta>)
    ensures
        meta_views(r@) == attested_accounts(
            valid_signer_1@,
            valid_signer_2@,
            valid_signer_3@,
            signer_group@,
            target@,
        ),
{
    let mut accounts: Vec<AccountMeta> = Vec::new();
    accounts.push(AccountMeta::new_readonly(*valid_signer_1, false));
    accounts.push(AccountMeta::new_readonly(*valid_signer_2, false));
    accounts.push(AccountMeta::new_readonly(*valid_signer_3, false));
    accounts.push(AccountMeta::new_readonly(*signer_group, false));
    accounts.push(AccountMeta::new(*target, false));
    accounts.push(AccountMeta::new_readonly(sysvar_instructions_id(), false));
    accounts.push(AccountMeta::new_readonly(sysvar_clock_id(), false));
    proof {
        assert(meta_views(accounts@) =~= attested_accounts(
            valid_signer_1@,
            valid_signer_2@,
            valid_signer_3@,
            signer_group@,
            target@,
        ));
    }
    accounts
}

/// Creates a `ValidateMultipleSignaturesClearValidSigner` instruction.
pub fn validate_multiple_signatures_clear_valid_signer(
    program_id: &[u8; 32],
    valid_signer_1: &[u8; 32],
    valid_signer_2: &[u8; 32],
    valid_signer_3: &[u8; 32],
    signer_group: &[u8; 32],
    old_valid_signer: &[u8; 32],
    signature_data_1: SignatureData,
    signature_data_2: SignatureData,
    signature_data_3: SignatureData,
) -> (r: Result<Instruction, ProgramError>)
    ensures
        yields(
            r,
            carried(
                program_id@,
                attested_accounts(
                    valid_signer_1@,
                    valid_signer_2@,
                    valid_signer_3@,
                    signer_group@,
                    old_valid_signer@,
                ),
                ColivingInstructionView::ValidateMultipleSignaturesClearValidSigner(
                    signature_data_1@,
                    signature_data_2@,
                    signature_data_3@,
                ),
            ),
        ),
{
    let args = ColivingInstruction::ValidateMultipleSignaturesClearValidSigner(
        signature_data_1,
        signature_data_2,
        signature_data_3,
    );
    let accounts = list_attested_accounts(
        valid_signer_1,
        valid_signer_2,
        valid_signer_3,
        signer_group,
        old_valid_signer,
    );
    carry(program_id, accounts, &args)
}

/// The accounts of a `ValidateSignature` instruction.
pub open spec fn validate_signature_accounts(
    valid_signer_account: Seq<u8>,
    signer_group: Seq<u8>,
    sysvar_instruction: Seq<u8>,
) -> Seq<AccountMetaView> {
    seq![
        readonly(valid_signer_account, false),
        readonly(signer_group, false),
        readonly(sysvar_instruction, false),
    ]
}

/// Creates a `ValidateSignature` instruction.
pub fn validate_signature(
    program_id: &[u8; 32],
    valid_signer_account: &[u8; 32],
    signer_group: &[u8; 32],
    signature_data: SignatureData,
) -> (r: Result<Instruction, ProgramError>)
    ensures
        yields(
            r,
            carried(
                program_id@,
                validate_signature_accounts(
                    valid_signer_account@,
                    signer_group@,
                    spec_sysvar_instructions_id(),
                ),
                ColivingInstructionView::ValidateSignature(signature_data@),
            ),
        ),
{
    let sysvar = sysvar_instructions_id();
    validate_signature_with_sysvar(
        program_id,
        valid_signer_account,
        signer_group,
        &sysvar,
        signature_data,
    )
}

/// Creates a `ValidateMultipleSignaturesAddSigner` instruction.
pub fn validate_multiple_signatures_add_signer(
    program_id: &[u8; 32],
    valid_signer_1: &[u8; 32],
    valid_signer_2: &[u8; 32],
    valid_signer_3: &[u8; 32],
    signer_group: &[u8; 32],
    new_valid_signer: &[u8; 32],
    signature_data_1: SignatureData,
    signature_data_2: SignatureData,
    signature_data_3: SignatureData,
    eth_pubkey: [u8; 20],
) -> (r: Result<Instruction, ProgramError>)
    ensures
        yields(
            r,
            carried(
                program_id@,
                attested_accounts(
                    valid_signer_1@,
                    valid_signer_2@,
                    valid_signer_3@,
                    signer_group@,
                    new_valid_signer@,
                ),
                ColivingInstructionView::ValidateMultipleSignaturesAddSigner(
                    signature_data_1@,
                    signature_data_2@,
                    signature_data_3@,
                    eth_pubkey@,
                ),
            ),
        ),
{
    let args = ColivingInstruction::ValidateMultipleSignaturesAddSigner(
        signature_data_1,
        signature_data_2,
        signature_data_3,
        eth_pubkey,
    );
    let accounts = list_attested_accounts(
        valid_signer_1,
        valid_signer_2,
        valid_signer_3,
        signer_group,
        new_valid_signer,
    );
    carry(program_id, accounts, &args)
}

/// Creates a `ValidateSignature` instruction that declares
/// `sysvar_instruction` in the place of the instructions sysvar.
pub fn validate_signature_with_sysvar(
    program_id: &[u8; 32],
    valid_signer_account: &[u8; 32],
    signer_group: &[u8; 32],
    sysvar_instruction: &[u8; 32],
    signature_data: SignatureData,
) -> (r: Result<Instruction, ProgramError>)
    ensures
        yields(
            r,
            carried(
                program_id@,
                validate_signature_accounts(
                    valid_signer_account@,
                    signer_group@,
                    sysvar_instruction@,
                ),
                ColivingInstructionView::ValidateSignature(signature_data@),
            ),
        ),
{
    let args = ColivingInstruction::ValidateSignature(signature_data);
    let mut accounts: Vec<AccountMeta> = Vec::new();
    accounts.push(AccountMeta::new_readonly(*valid_signer_account, false));
    accounts.push(AccountMeta::new_readonly(*signer_group, false));
    accounts.push(AccountMeta::new_readonly(*sysvar_instruction, false));
    proof {
        assert(meta_views(accounts@) =~= validate_signature_accounts(
            valid_signer_account@,
            signer_group@,
            sysvar_instruction@,
        ));
    }
    carry(program_id, accounts, &args)
}

/// Creates a `DisableSignerGroupOwner` instruction.
pub fn disable_signer_group_owner(program_id: &[u8; 32], signer_group: &[u8; 32], owner: &[u8; 32])
    -> (r: Result<Instruction, ProgramError>)
    ensures
        yields(
            r,
            carried(
                program_id@,
                seq![writable(signer_group@, false), readonly(owner@, true)],
                ColivingInstructionView::DisableSignerGroupOwner,
            ),
        ),
{
    let mut accounts: Vec<AccountMeta> = Vec::new();
    accounts.push(AccountMeta::new(*signer_group, false));
    accounts.push(AccountMeta::new_readonly(*owner, true));
    proof {
        assert(meta_views(accounts@) =~= seq![
            writable(signer_group@, false),
            readonly(owner@, true),
        ]);
    }
    carry(program_id, accounts, &ColivingInstruction::DisableSignerGroupOwner)
}

} // verus!
