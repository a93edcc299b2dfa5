//! Finds the signature-recovery instructions that were submitted in the same
//! transaction as the authorization instruction.
//!
//! The transaction is read through the instructions sysvar: an account whose
//! data holds every instruction of the transaction and, in its last two
//! bytes, the position of the instruction that is being processed.

use crate::account::Account;
use crate::codec::slices_equal;
use crate::error::{yields, ProgramError};
use crate::ledger::{
    instruction_at, is_secp256k1_program, load_current_index, load_instruction_at,
    spec_secp256k1_program_id, spec_sysvar_instructions_id, sysvar_instructions_id,
    LoadedInstruction,
};
use vstd::bytes::spec_u16_from_le_bytes;
use vstd::prelude::*;

verus! {

/// Whether a declared account is the instructions sysvar.
pub open spec fn genuine(sysvar: Account) -> bool {
    sysvar.key@ == spec_sysvar_instructions_id()
}

/// The position of the instruction that is being processed, as the declared
/// instructions sysvar tells it.
pub open spec fn current(sysvar: Account) -> Result<u16, ProgramError> {
    if !genuine(sysvar) {
        Err(ProgramError::BindingError)
    } else if sysvar.data@.len() < 2 {
        Err(ProgramError::DecodeError)
    } else {
        Ok(
            spec_u16_from_le_bytes(
                sysvar.data@.subrange(sysvar.data@.len() - 2, sysvar.data@.len() as int),
            ),
        )
    }
}

/// The data of the recovery instruction at `position`: the sysvar must be
/// genuine, an instruction must stand there, and it must target the
/// signature-recovery program.
pub open spec fn companion_at(sysvar: Account, position: int) -> Result<Seq<u8>, ProgramError> {
    if !genuine(sysvar) {
        Err(ProgramError::BindingError)
    } else {
        companion_of(instruction_at(sysvar.data@, position))
    }
}

/// The recovery instruction that immediately precedes the current
/// instruction, with its position.
pub open spec fn preceding_companion(sysvar: Account) -> Result<(u16, Seq<u8>), ProgramError> {
    match current(sysvar) {
        Err(e) => Err(e),
        Ok(position) => if position == 0 {
            Err(ProgramError::OrderingError)
        } else {
            match companion_at(sysvar, position - 1) {
                Err(e) => Err(e),
                Ok(data) => Ok(((position - 1) as u16, data)),
            }
        },
    }
}

/// Whether a declared account is the instructions sysvar.
pub fn is_genuine(sysvar: &Account) -> (r: bool)
    ensures
        r == genuine(*sysvar),
{
    let id = sysvar_instructions_id();
    slices_equal(sysvar.key.as_slice(), id.as_slice())
}

/// The position of the instruction that is being processed.
pub fn current_position(sysvar: &Account) -> (r: Result<u16, ProgramError>)
    ensures
        r == current(*sysvar),
{
    if !is_genuine(sysvar) {
        return Err(ProgramError::BindingError);
    }
    if sysvar.data.len() < 2 {
        return Err(ProgramError::DecodeError);
    }
    Ok(load_current_index(sysvar.data.as_slice()))
}

/// Fetches the recovery instruction at `position`.
pub fn locate_companion(sysvar: &Account, position: u16) -> (r: Result<Vec<u8>, ProgramError>)
    ensures
        yields(r, companion_at(*sysvar, position as int)),
{
    if !is_genuine(sysvar) {
        return Err(ProgramError::BindingError);
    }
    check_companion(load_instruction_at(position as usize, sysvar.data.as_slice()))
}

/// Fetches the recovery instruction that immediately precedes the current
/// instruction. Position 0 has no predecessor.
pub fn locate_preceding(sysvar: &Account) -> (r: Result<(u16, Vec<u8>), ProgramError>)
    ensures
        match preceding_companion(*sysvar) {
            Ok((position, data)) => r matches Ok(found) && found.0 == position && found.1@ == data,
            Err(e) => r matches Err(x) && x == e,
        },
{
    let position = match current_position(sysvar) {
        Ok(c) => c,
        Err(e) => { return Err(e); },
    };
    if position == 0 {
        return Err(ProgramError::OrderingError);
    }
    let preceding: u16 = position - 1;
    match locate_companion(sysvar, preceding) {
        Ok(data) => Ok((preceding, data)),
        Err(e) => Err(e),
    }
}

/// What a located instruction is worth as a companion: nothing where no
/// instruction was found, nothing where it targets another program, else its
/// data.
pub open spec fn companion_of(loaded: Option<(Seq<u8>, Seq<u8>)>) -> Result<
    Seq<u8>,
    ProgramError,
> {
    match loaded {
        None => Err(ProgramError::OrderingError),
        Some((program_id, data)) => if program_id == spec_secp256k1_program_id() {
            Ok(data)
        } else {
            Err(ProgramError::BindingError)
        },
    }
}

/// Accepts a located instruction as a companion only if it targets the
/// signature-recovery program.
pub fn check_companion(loaded: Option<LoadedInstruction>) -> (r: Result<Vec<u8>, ProgramError>)
    ensures
        yields(r, companion_of(crate::ledger::loaded_view(loaded))),
{
    match loaded {
        None => Err(ProgramError::OrderingError),
        Some(instruction) => {
            if is_secp256k1_program(&instruction.program_id) {
                Ok(instruction.data)
            } else {
                Err(ProgramError::BindingError)
            }
        },
    }
}

} // verus!
