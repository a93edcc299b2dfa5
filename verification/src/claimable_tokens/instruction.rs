//! Instruction types.

use crate::codec::array20_at;
use crate::error::ProgramError;
use vstd::prelude::*;

verus! {

/// The payload of `CreateTokenAccount`.
#[derive(Clone, Copy, Debug)]
pub struct CreateTokenAccount {
    /// The external address that the token account is for.
    pub eth_address: [u8; 20],
}

/// The instructions of the token-claim program.
#[derive(Clone, Copy, Debug)]
pub enum ClaimableProgramInstruction {
    /// Creates the token account of an external address.
    ///
    /// 0. `[sw]` funder
    /// 1. `[]` mint
    /// 2. `[]` the mint's authority
    /// 3. `[w]` the account to create
    /// 4. `[]` rent sysvar
    CreateTokenAccount(CreateTokenAccount),
    /// Transfers tokens out of the token account of an external address,
    /// gated by a signature of that address.
    ///
    /// 0. `[sw]` funder
    /// 1. `[w]` the token account to transfer from
    /// 2. `[w]` destination
    /// 3. `[w]` the signer's counter account
    /// 4. `[]` the mint's authority
    /// 5. `[]` rent sysvar
    /// 6. `[]` instructions sysvar
    Transfer([u8; 20]),
}

/// An instruction of the token-claim program as a mathematical value.
pub enum ClaimableProgramInstructionView {
    CreateTokenAccount(Seq<u8>),
    Transfer(Seq<u8>),
}

impl View for ClaimableProgramInstruction {
    type V = ClaimableProgramInstructionView;

    open spec fn view(&self) -> ClaimableProgramInstructionView {
        match *self {
            ClaimableProgramInstruction::CreateTokenAccount(args) => {
                ClaimableProgramInstructionView::CreateTokenAccount(args.eth_address@)
            },
            ClaimableProgramInstruction::Transfer(eth_address) => {
                ClaimableProgramInstructionView::Transfer(eth_address@)
            },
        }
    }
}

impl ClaimableProgramInstruction {
    /// The instruction that a payload stands for: one tag byte, 0 for
    /// `CreateTokenAccount` and 1 for `Transfer`, then the 20 address bytes
    /// and nothing more.
    pub open spec fn decode(input: Seq<u8>) -> Result<
        ClaimableProgramInstructionView,
        ProgramError,
    > {
        if input.len() == 21 && input[0] == 0 {
            Ok(ClaimableProgramInstructionView::CreateTokenAccount(input.subrange(1, 21)))
        } else if input.len() == 21 && input[0] == 1 {
            Ok(ClaimableProgramInstructionView::Transfer(input.subrange(1, 21)))
        } else {
            Err(ProgramError::DecodeError)
        }
    }

    /// The payload that stands for an instruction.
    pub open spec fn encode(v: ClaimableProgramInstructionView) -> Seq<u8> {
        match v {
            ClaimableProgramInstructionView::CreateTokenAccount(a) => seq![0u8] + a,
            ClaimableProgramInstructionView::Transfer(a) => seq![1u8] + a,
        }
    }

    /// Reads an instruction from its payload.
    pub fn try_from_slice(input: &[u8]) -> (r: Result<Self, ProgramError>)
        ensures
            crate::error::yields(r, Self::decode(input@)),
    {
        if input.len() != 21 {
            return Err(ProgramError::DecodeError);
        }
        let eth_address = array20_at(input, 1);
        if input[0] == 0 {
            Ok(ClaimableProgramInstruction::CreateTokenAccount(CreateTokenAccount { eth_address }))
        } else if input[0] == 1 {
            Ok(ClaimableProgramInstruction::Transfer(eth_address))
        } else {
            Err(ProgramError::DecodeError)
        }
    }

    /// Writes the payload of an instruction.
    pub fn try_to_vec(&self) -> (r: Vec<u8>)
        ensures
            r@ == Self::encode(self@),
    {
        let mut out: Vec<u8> = Vec::new();
        match self {
            ClaimableProgramInstruction::CreateTokenAccount(args) => {
                out.push(0);
                crate::codec::append(&mut out, args.eth_address.as_slice());
            },
            ClaimableProgramInstruction::Transfer(eth_address) => {
                out.push(1);
                crate::codec::append(&mut out, eth_address.as_slice());
            },
        }
        out
    }
}

} // verus!
