//! What the command line computes before it talks to a node: the checks on
//! its arguments and the instructions of a signed message.

use crate::account::{AccountMeta, Instruction, InstructionView};
use crate::codec::{array20_at, array32_at, copy_range};
use crate::error::ProgramError;
use crate::eth_registry::instruction::{
    carried, validate_signature, validate_signature_accounts, ColivingInstructionView,
    SignatureData, SignatureDataView,
};
use crate::ledger::{
    hex_decode, hex_decoded, is_hex_text, new_secp256k1_instruction_data,
    secp256k1_program_id, signed_recovery_data, spec_secp256k1_program_id,
    spec_sysvar_instructions_id,
};
use crate::secp::{offsets_of, SecpSignatureOffsets, DATA_START};
use vstd::prelude::*;
use vstd::utf8::encode_utf8;

verus! {

/// Accepts a text of hexadecimal digits, an even number of them.
pub fn is_hex(s: String) -> (r: Result<(), String>)
    ensures
        is_hex_text(encode_utf8(s@)) ==> r is Ok,
        !is_hex_text(encode_utf8(s@)) ==> (r matches Err(m) && m@ == "Wrong address format"@),
{
    if hex_decode(s.as_str().as_bytes()).is_none() {
        Err("Wrong address format".to_owned())
    } else {
        Ok(())
    }
}

/// The address that a hexadecimal text stands for: the 20 bytes of its 40
/// digits.
pub open spec fn spec_eth_address(text: Seq<char>) -> Option<Seq<u8>> {
    match hex_decoded(encode_utf8(text)) {
        Some(bytes) => if bytes.len() == 20 {
            Some(bytes)
        } else {
            None
        },
        None => None,
    }
}

/// Decodes an external address from its hexadecimal text, without prefix.
pub fn decode_eth_address(eth_address: &str) -> (r: Option<[u8; 20]>)
    ensures
        match spec_eth_address(eth_address@) {
            Some(bytes) => r matches Some(address) && address@ == bytes,
            None => r is None,
        },
{
    match hex_decode(eth_address.as_bytes()) {
        Some(bytes) => {
            if bytes.len() == 20 {
                let address = array20_at(bytes.as_slice(), 0);
                proof {
                    assert(bytes@.subrange(0, 20) =~= bytes@);
                }
                Some(address)
            } else {
                None
            }
        },
        None => None,
    }
}

/// The secret key that a hexadecimal text stands for: the 32 bytes of its
/// 64 digits.
pub open spec fn spec_secret_key(text: Seq<char>) -> Option<Seq<u8>> {
    match hex_decoded(encode_utf8(text)) {
        Some(bytes) => if bytes.len() == 32 {
            Some(bytes)
        } else {
            None
        },
        None => None,
    }
}

/// Decodes a secret key from its hexadecimal text.
pub fn decode_secret_key(secret_key: &str) -> (r: Option<[u8; 32]>)
    ensures
        match spec_secret_key(secret_key@) {
            Some(bytes) => r matches Some(key) && key@ == bytes,
            None => r is None,
        },
{
    match hex_decode(secret_key.as_bytes()) {
        Some(bytes) => {
            if bytes.len() == 32 {
                let key = array32_at(bytes.as_slice(), 0);
                proof {
                    assert(bytes@.subrange(0, 32) =~= bytes@);
                }
                Some(key)
            } else {
                None
            }
        },
        None => None,
    }
}

/// The signature data that goes with a recovery instruction over `message`:
/// the recovery id that follows the 64 signature bytes at the offset that
/// the instruction's offsets record gives, and the message.
pub open spec fn spec_signature_data(instruction_data: Seq<u8>, message: Seq<u8>) -> Option<
    SignatureDataView,
> {
    if instruction_data.len() >= DATA_START && offsets_of(instruction_data).signature_offset
        + SecpSignatureOffsets::SECP_SIGNATURE_SIZE < instruction_data.len() {
        Some(
            SignatureDataView {
                recovery_id: instruction_data[offsets_of(instruction_data).signature_offset
                    + SecpSignatureOffsets::SECP_SIGNATURE_SIZE],
                message,
            },
        )
    } else {
        None
    }
}

/// Reads the recovery id out of a recovery instruction and pairs it with
/// the signed message.
pub fn signature_data_of(instruction_data: &[u8], message: &[u8]) -> (r: Option<SignatureData>)
    ensures
        match spec_signature_data(instruction_data@, message@) {
            Some(v) => r matches Some(found) && found@ == v,
            None => r is None,
        },
{
    if instruction_data.len() < DATA_START {
        return None;
    }
    let offsets = match SecpSignatureOffsets::try_from_slice(
        vstd::slice::slice_subrange(instruction_data, 1, DATA_START),
    ) {
        Ok(o) => o,
        Err(_) => { return None; },
    };
    let sig_end: usize = offsets.signature_offset as usize + 64;
    if sig_end >= instruction_data.len() {
        return None;
    }
    let signed = copy_range(message, 0, message.len());
    proof {
        assert(message@.subrange(0, message@.len() as int) =~= message@);
    }
    Some(SignatureData { recovery_id: instruction_data[sig_end], message: signed })
}

/// The two instructions that submit a signed message for validation: the
/// recovery instruction, then `ValidateSignature`.
pub open spec fn spec_message_instructions(
    program_id: Seq<u8>,
    valid_signer: Seq<u8>,
    signer_group: Seq<u8>,
    instruction_data: Seq<u8>,
    message: Seq<u8>,
) -> Result<(InstructionView, InstructionView), ProgramError> {
    match spec_signature_data(instruction_data, message) {
        None => Err(ProgramError::InvalidArgument),
        Some(signature) => match carried(
            program_id,
            validate_signature_accounts(valid_signer, signer_group, spec_sysvar_instructions_id()),
            ColivingInstructionView::ValidateSignature(signature),
        ) {
            Err(e) => Err(e),
            Ok(validate) => Ok(
                (
                    InstructionView {
                        program_id: spec_secp256k1_program_id(),
                        accounts: Seq::empty(),
                        data: instruction_data,
                    },
                    validate,
                ),
            ),
        },
    }
}

/// Whether two instructions are the expected ones, by their views.
pub open spec fn submits(
    r: Result<(Instruction, Instruction), ProgramError>,
    expected: Result<(InstructionView, InstructionView), ProgramError>,
) -> bool {
    match expected {
        Err(e) => r matches Err(x) && x == e,
        Ok((recovery, validate)) => r matches Ok(pair) && pair.0@ == recovery && pair.1@
            == validate,
    }
}

/// Puts the data of a recovery instruction over `message` together with
/// the `ValidateSignature` instruction that goes with it.
pub fn message_instructions(
    program_id: &[u8; 32],
    valid_signer: &[u8; 32],
    signer_group: &[u8; 32],
    instruction_data: Vec<u8>,
    message: &[u8],
) -> (r: Result<(Instruction, Instruction), ProgramError>)
    ensures
        submits(
            r,
            spec_message_instructions(
                program_id@,
                valid_signer@,
                signer_group@,
                instruction_data@,
                message@,
            ),
        ),
{
    let signature_data = match signature_data_of(instruction_data.as_slice(), message) {
        Some(s) => s,
        None => { return Err(ProgramError::InvalidArgument); },
    };
    let validate = match validate_signature(program_id, valid_signer, signer_group, signature_data) {
        Ok(i) => i,
        Err(e) => { return Err(e); },
    };
    let accounts: Vec<AccountMeta> = Vec::new();
    let recovery = Instruction { program_id: secp256k1_program_id(), accounts, data: instruction_data };
    proof {
        assert(recovery@.accounts =~= Seq::empty());
    }
    Ok((recovery, validate))
}

/// Signs `message` with a secret key and builds the two instructions that
/// submit it for validation by `valid_signer`. Fails with `InvalidArgument`
/// where the key is none.
pub fn send_message(
    program_id: &[u8; 32],
    valid_signer: &[u8; 32],
    signer_group: &[u8; 32],
    secret_key: &[u8; 32],
    message: &[u8],
) -> (r: Result<(Instruction, Instruction), ProgramError>)
    ensures
        submits(
            r,
            match signed_recovery_data(secret_key@, message@) {
                None => Err(ProgramError::InvalidArgument),
                Some(instruction_data) => spec_message_instructions(
                    program_id@,
                    valid_signer@,
                    signer_group@,
                    instruction_data,
                    message@,
                ),
            },
        ),
{
    match new_secp256k1_instruction_data(secret_key, message) {
        Some(instruction_data) => message_instructions(
            program_id,
            valid_signer,
            signer_group,
            instruction_data,
            message,
        ),
        None => Err(ProgramError::InvalidArgument),
    }
}

} // verus!
