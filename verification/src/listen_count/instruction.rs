//! Instruction types.

use crate::account::{
    meta_views, readonly, AccountMeta, AccountMetaView, Instruction, InstructionView,
};
use crate::codec::{append, array64_at, read_u64, write_u64};
use crate::error::{yields, ProgramError};
use crate::ledger::{
    spec_sysvar_clock_id, spec_sysvar_instructions_id, sysvar_clock_id, sysvar_instructions_id,
};
use crate::listen_count::state::{AgreementData, AgreementDataView};
use crate::reward_manager::instruction::{decode_text_at, encode_text, read_text_at, write_text};
use vstd::bytes::{spec_u64_from_le_bytes, spec_u64_to_le_bytes};
use vstd::prelude::*;
use vstd::utf8::encode_utf8;

verus! {

/// Instruction arguments.
#[derive(Clone, Debug)]
pub struct InstructionArgs {
    /// Data of the agreement.
    pub agreement_data: AgreementData,
    /// Signature to verify.
    pub signature: [u8; 64],
    /// Recovery id used to verify the signature.
    pub recovery_id: u8,
}

/// Instruction arguments as a mathematical value.
pub struct InstructionArgsView {
    pub agreement_data: AgreementDataView,
    pub signature: Seq<u8>,
    pub recovery_id: u8,
}

impl View for InstructionArgs {
    type V = InstructionArgsView;

    open spec fn view(&self) -> InstructionArgsView {
        InstructionArgsView {
            agreement_data: self.agreement_data@,
            signature: self.signature@,
            recovery_id: self.recovery_id,
        }
    }
}

impl InstructionArgsView {
    /// Whether the arguments can be written: the length of every text fits
    /// four bytes.
    pub open spec fn fits(self) -> bool {
        &&& encode_utf8(self.agreement_data.user_id).len() <= u32::MAX
        &&& encode_utf8(self.agreement_data.agreement_id).len() <= u32::MAX
        &&& encode_utf8(self.agreement_data.source).len() <= u32::MAX
    }

    /// The bytes that stand for the arguments: the three texts, the
    /// timestamp in eight little-endian bytes, two's complement, the
    /// signature and the recovery id.
    pub open spec fn encode(self) -> Seq<u8> {
        encode_text(self.agreement_data.user_id) + encode_text(self.agreement_data.agreement_id)
            + encode_text(self.agreement_data.source) + spec_u64_to_le_bytes(
            self.agreement_data.timestamp as u64,
        ) + self.signature + seq![self.recovery_id]
    }
}

/// Instruction definition.
#[derive(Clone, Debug)]
pub enum TemplateInstruction {
    /// Counts a listen of an agreement.
    ///
    /// 0. `[]` valid signer account
    /// 1. `[]` signer group
    /// 2. `[]` registry program
    /// 3. `[]` instructions sysvar
    /// 4. `[]` clock sysvar
    AgreementListenInstruction(InstructionArgs),
}

impl TemplateInstruction {
    /// The payload that stands for the instruction: the tag byte 0, then
    /// the arguments.
    pub open spec fn encode(args: InstructionArgsView) -> Seq<u8> {
        seq![0u8] + args.encode()
    }

    /// The arguments that a payload stands for. The payload must hold
    /// exactly one instruction and nothing more.
    pub open spec fn decode(s: Seq<u8>) -> Result<InstructionArgsView, ProgramError> {
        if s.len() >= 1 && s[0] == 0 {
            match decode_text_at(s, 1) {
                Some((user_id, a)) => match decode_text_at(s, a) {
                    Some((agreement_id, b)) => match decode_text_at(s, b) {
                        Some((source, c)) if c + 73 == s.len() => Ok(
                            InstructionArgsView {
                                agreement_data: AgreementDataView {
                                    user_id,
                                    agreement_id,
                                    source,
                                    timestamp: spec_u64_from_le_bytes(s.subrange(c, c + 8)) as i64,
                                },
                                signature: s.subrange(c + 8, c + 72),
                                recovery_id: s[c + 72],
                            },
                        ),
                        _ => Err(ProgramError::DecodeError),
                    },
                    None => Err(ProgramError::DecodeError),
                },
                None => Err(ProgramError::DecodeError),
            }
        } else {
            Err(ProgramError::DecodeError)
        }
    }

    /// Reads an instruction from its payload.
    pub fn try_from_slice(data: &[u8]) -> (r: Result<Self, ProgramError>)
        ensures
            match Self::decode(data@) {
                Err(e) => r matches Err(x) && x == e,
                Ok(v) => r matches Ok(TemplateInstruction::AgreementListenInstruction(args))
                    && args@ == v,
            },
    {
        if data.len() == 0 || data[0] != 0 {
            return Err(ProgramError::DecodeError);
        }
        let (user_id, a) = match read_text_at(data, 1) {
            Some(found) => found,
            None => { return Err(ProgramError::DecodeError); },
        };
        let (agreement_id, b) = match read_text_at(data, a) {
            Some(found) => found,
            None => { return Err(ProgramError::DecodeError); },
        };
        let (source, c) = match read_text_at(data, b) {
            Some(found) => found,
            None => { return Err(ProgramError::DecodeError); },
        };
        if data.len() - c != 73 {
            return Err(ProgramError::DecodeError);
        }
        let timestamp = #[verifier::truncate] (read_u64(data, c) as i64);
        Ok(
            TemplateInstruction::AgreementListenInstruction(
                InstructionArgs {
                    agreement_data: AgreementData { user_id, agreement_id, source, timestamp },
                    signature: array64_at(data, c + 8),
                    recovery_id: data[c + 72],
                },
            ),
        )
    }

    /// Writes the payload of the instruction. Fails where a text is too
    /// long to write.
    pub fn try_to_vec(&self) -> (r: Result<Vec<u8>, ProgramError>)
        ensures
            match *self {
                TemplateInstruction::AgreementListenInstruction(args) => yields(
                    r,
                    if args@.fits() {
                        Ok(Self::encode(args@))
                    } else {
                        Err(ProgramError::DecodeError)
                    },
                ),
            },
    {
        let mut out: Vec<u8> = Vec::new();
        match self {
            TemplateInstruction::AgreementListenInstruction(args) => {
                out.push(0);
                match write_text(&mut out, &args.agreement_data.user_id) {
                    Ok(()) => {},
                    Err(e) => { return Err(e); },
                }
                match write_text(&mut out, &args.agreement_data.agreement_id) {
                    Ok(()) => {},
                    Err(e) => { return Err(e); },
                }
                match write_text(&mut out, &args.agreement_data.source) {
                    Ok(()) => {},
                    Err(e) => { return Err(e); },
                }
                write_u64(&mut out, #[verifier::truncate] (args.agreement_data.timestamp as u64));
                append(&mut out, args.signature.as_slice());
                out.push(args.recovery_id);
                proof {
                    assert(out@ =~= Self::encode(args@));
                }
            },
        }
        Ok(out)
    }
}

/// The accounts of an `AgreementListenInstruction`.
pub open spec fn listen_accounts(
    valid_signer_account: Seq<u8>,
    signer_group: Seq<u8>,
    registry_program: Seq<u8>,
) -> Seq<AccountMetaView> {
    seq![
        readonly(valid_signer_account, false),
        readonly(signer_group, false),
        readonly(registry_program, false),
        readonly(spec_sysvar_instructions_id(), false),
        readonly(spec_sysvar_clock_id(), false),
    ]
}

/// Creates an `AgreementListenInstruction`. `registry_program` is the id of
/// the registry that the signer belongs to. Fails with `InvalidArgument`
/// where the arguments cannot be written.
pub fn init(
    program_id: &[u8; 32],
    valid_signer_account: &[u8; 32],
    signer_group: &[u8; 32],
    registry_program: &[u8; 32],
    agreement_data: InstructionArgs,
) -> (r: Result<Instruction, ProgramError>)
    ensures
        yields(
            r,
            if agreement_data@.fits() {
                Ok(
                    InstructionView {
                        program_id: program_id@,
                        accounts: listen_accounts(
                            valid_signer_account@,
                            signer_group@,
                            registry_program@,
                        ),
                        data: TemplateInstruction::encode(agreement_data@),
                    },
                )
            } else {
                Err(ProgramError::InvalidArgument)
            },
        ),
{
    let ghost args = agreement_data@;
    let init_data = TemplateInstruction::AgreementListenInstruction(agreement_data);
    let data = match init_data.try_to_vec() {
        Ok(d) => d,
        Err(_) => { return Err(ProgramError::InvalidArgument); },
    };
    let mut accounts: Vec<AccountMeta> = Vec::new();
    accounts.push(AccountMeta::new_readonly(*valid_signer_account, false));
    accounts.push(AccountMeta::new_readonly(*signer_group, false));
    accounts.push(AccountMeta::new_readonly(*registry_program, false));
    accounts.push(AccountMeta::new_readonly(sysvar_instructions_id(), false));
    accounts.push(AccountMeta::new_readonly(sysvar_clock_id(), false));
    proof {
        assert(meta_views(accounts@) =~= listen_accounts(
            valid_signer_account@,
            signer_group@,
            registry_program@,
        ));
    }
    Ok(Instruction { program_id: *program_id, accounts, data })
}

} // verus!
