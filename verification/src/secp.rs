//! The fixed layout of a signature-recovery instruction, and the check that
//! its offsets record refers to the instruction itself.
//!
//! Byte 0 counts the signatures. Bytes 1 to 11 hold the offsets record. The
//! 20-byte address follows at 12, the 64-byte signature at 32, the recovery
//! id at 96 and the message at 97.

use crate::codec::{array20_at, copy_range, read_u16, write_u16};
use crate::error::{yields, ProgramError};
use vstd::bytes::{lemma_auto_spec_u16_to_from_le_bytes, spec_u16_from_le_bytes, spec_u16_to_le_bytes};
use vstd::prelude::*;

verus! {

/// Size of the serialized offsets record.
pub const SIGNATURE_OFFSETS_SERIALIZED_SIZE: usize = 11;

/// Where the recovery data starts, after the count byte and the offsets
/// record.
pub const DATA_START: usize = SIGNATURE_OFFSETS_SERIALIZED_SIZE + 1;

/// Where the recovered address stands.
pub const ETH_ADDRESS_OFFSET: usize = 12;

/// Where the signature stands: address offset plus the 20 address bytes.
pub const SIGNATURE_OFFSET: usize = 32;

/// Where the recovery id stands: behind the 64 signature bytes.
pub const RECOVERY_ID_OFFSET: usize = 96;

/// Where the message stands: behind address, signature and recovery id.
pub const MESSAGE_DATA_OFFSET: usize = 97;

/// The offsets record of one signature in a recovery instruction.
#[derive(Clone, Copy, Debug, PartialEq, Eq, Structural)]
pub struct SecpSignatureOffsets {
    /// Offset of the 64 signature bytes and the recovery id.
    pub signature_offset: u16,
    /// Index of the instruction that holds the signature.
    pub signature_instruction_index: u8,
    /// Offset of the 20 address bytes.
    pub eth_address_offset: u16,
    /// Index of the instruction that holds the address.
    pub eth_address_instruction_index: u8,
    /// Offset of the message.
    pub message_data_offset: u16,
    /// Length of the message.
    pub message_data_size: u16,
    /// Index of the instruction that holds the message.
    pub message_instruction_index: u8,
}

impl Default for SecpSignatureOffsets {
    fn default() -> (r: Self)
        ensures
            r == (SecpSignatureOffsets {
                signature_offset: 0,
                signature_instruction_index: 0,
                eth_address_offset: 0,
                eth_address_instruction_index: 0,
                message_data_offset: 0,
                message_data_size: 0,
                message_instruction_index: 0,
            }),
    {
        SecpSignatureOffsets {
            signature_offset: 0,
            signature_instruction_index: 0,
            eth_address_offset: 0,
            eth_address_instruction_index: 0,
            message_data_offset: 0,
            message_data_size: 0,
            message_instruction_index: 0,
        }
    }
}

impl SecpSignatureOffsets {
    /// Size of an Ethereum-style address.
    pub const ETH_ADDRESS_SIZE: usize = 20;

    /// Size of a signature without its recovery id.
    pub const SECP_SIGNATURE_SIZE: usize = 64;

    /// Size of the serialized record.
    pub const SIGNATURE_OFFSETS_SERIALIZED_SIZE: usize = 11;

    /// The record that eleven bytes stand for: the fields in order, each
    /// `u16` little-endian.
    pub open spec fn decode(s: Seq<u8>) -> Self
        recommends
            s.len() == 11,
    {
        SecpSignatureOffsets {
            signature_offset: spec_u16_from_le_bytes(s.subrange(0, 2)),
            signature_instruction_index: s[2],
            eth_address_offset: spec_u16_from_le_bytes(s.subrange(3, 5)),
            eth_address_instruction_index: s[5],
            message_data_offset: spec_u16_from_le_bytes(s.subrange(6, 8)),
            message_data_size: spec_u16_from_le_bytes(s.subrange(8, 10)),
            message_instruction_index: s[10],
        }
    }

    /// The eleven bytes that stand for the record.
    pub open spec fn encode(self) -> Seq<u8> {
        spec_u16_to_le_bytes(self.signature_offset) + seq![self.signature_instruction_index]
            + spec_u16_to_le_bytes(self.eth_address_offset) + seq![
            self.eth_address_instruction_index,
        ] + spec_u16_to_le_bytes(self.message_data_offset) + spec_u16_to_le_bytes(
            self.message_data_size,
        ) + seq![self.message_instruction_index]
    }

    /// Whether the three index fields all name the instruction at `index`.
    pub open spec fn refers_to(self, index: u8) -> bool {
        &&& self.signature_instruction_index == index
        &&& self.eth_address_instruction_index == index
        &&& self.message_instruction_index == index
    }

    /// Whether the three offsets are the fixed ones.
    pub open spec fn has_fixed_offsets(self) -> bool {
        &&& self.eth_address_offset == ETH_ADDRESS_OFFSET
        &&& self.signature_offset == SIGNATURE_OFFSET
        &&& self.message_data_offset == MESSAGE_DATA_OFFSET
    }

    /// Reads a record from exactly eleven bytes.
    pub fn try_from_slice(data: &[u8]) -> (r: Result<Self, ProgramError>)
        ensures
            data@.len() == 11 ==> r == Ok::<Self, ProgramError>(Self::decode(data@)),
            data@.len() != 11 ==> r == Err::<Self, ProgramError>(ProgramError::DecodeError),
    {
        if data.len() != SIGNATURE_OFFSETS_SERIALIZED_SIZE {
            return Err(ProgramError::DecodeError);
        }
        Ok(
            SecpSignatureOffsets {
                signature_offset: read_u16(data, 0),
                signature_instruction_index: data[2],
                eth_address_offset: read_u16(data, 3),
                eth_address_instruction_index: data[5],
                message_data_offset: read_u16(data, 6),
                message_data_size: read_u16(data, 8),
                message_instruction_index: data[10],
            },
        )
    }

    /// Writes the record in eleven bytes.
    pub fn try_to_vec(&self) -> (r: Vec<u8>)
        ensures
            r@ == self.encode(),
            r@.len() == 11,
    {
        let mut out: Vec<u8> = Vec::new();
        write_u16(&mut out, self.signature_offset);
        out.push(self.signature_instruction_index);
        write_u16(&mut out, self.eth_address_offset);
        out.push(self.eth_address_instruction_index);
        write_u16(&mut out, self.message_data_offset);
        write_u16(&mut out, self.message_data_size);
        out.push(self.message_instruction_index);
        proof {
            lemma_auto_spec_u16_to_from_le_bytes();
            assert(out@ =~= self.encode());
        }
        out
    }

    /// Reading what was written gives the record back.
    pub proof fn lemma_decode_encode(self)
        ensures
            self.encode().len() == 11,
            Self::decode(self.encode()) == self,
    {
        lemma_auto_spec_u16_to_from_le_bytes();
        let e = self.encode();
        assert(e.subrange(0, 2) =~= spec_u16_to_le_bytes(self.signature_offset));
        assert(e.subrange(3, 5) =~= spec_u16_to_le_bytes(self.eth_address_offset));
        assert(e.subrange(6, 8) =~= spec_u16_to_le_bytes(self.message_data_offset));
        assert(e.subrange(8, 10) =~= spec_u16_to_le_bytes(self.message_data_size));
    }

    /// Writing what was read from eleven bytes gives the bytes back.
    pub proof fn lemma_encode_decode(s: Seq<u8>)
        requires
            s.len() == 11,
        ensures
            Self::decode(s).encode() == s,
    {
        lemma_auto_spec_u16_to_from_le_bytes();
        let e = Self::decode(s).encode();
        assert(spec_u16_to_le_bytes(spec_u16_from_le_bytes(s.subrange(0, 2))) == s.subrange(0, 2));
        assert(spec_u16_to_le_bytes(spec_u16_from_le_bytes(s.subrange(3, 5))) == s.subrange(3, 5));
        assert(spec_u16_to_le_bytes(spec_u16_from_le_bytes(s.subrange(6, 8))) == s.subrange(6, 8));
        assert(spec_u16_to_le_bytes(spec_u16_from_le_bytes(s.subrange(8, 10))) == s.subrange(
            8,
            10,
        ));
        assert(e =~= s);
    }
}

/// What a recovery instruction attests once its layout is trusted.
#[derive(Clone, Debug)]
pub struct RecoveredSignature {
    /// The address that the signature recovers to.
    pub eth_address: [u8; 20],
    /// The recovery id that follows the signature.
    pub recovery_id: u8,
    /// The signed message.
    pub message: Vec<u8>,
}

/// What a recovery instruction attests, as a mathematical value.
pub struct RecoveredSignatureView {
    pub eth_address: Seq<u8>,
    pub recovery_id: u8,
    pub message: Seq<u8>,
}

impl View for RecoveredSignature {
    type V = RecoveredSignatureView;

    open spec fn view(&self) -> RecoveredSignatureView {
        RecoveredSignatureView {
            eth_address: self.eth_address@,
            recovery_id: self.recovery_id,
            message: self.message@,
        }
    }
}

/// The offsets record in the data of a recovery instruction.
pub open spec fn offsets_of(data: Seq<u8>) -> SecpSignatureOffsets
    recommends
        data.len() >= DATA_START,
{
    SecpSignatureOffsets::decode(data.subrange(1, DATA_START as int))
}

/// Whether the data of the instruction at `index` is one well-formed
/// recovery of the fixed layout: one signature, an offsets record whose
/// index fields all name `index` and whose offsets are the fixed ones, and a
/// message that fills the rest of the data.
pub open spec fn layout_trusted(data: Seq<u8>, index: u8) -> bool {
    &&& data.len() >= MESSAGE_DATA_OFFSET
    &&& data[0] == 1
    &&& offsets_of(data).refers_to(index)
    &&& offsets_of(data).has_fixed_offsets()
    &&& data.len() == MESSAGE_DATA_OFFSET + offsets_of(data).message_data_size
}

/// What the data of the instruction found at `index` attests: address,
/// recovery id and message by their fixed places, where the layout is
/// trusted.
pub open spec fn recovery_of(data: Seq<u8>, index: u8) -> Result<
    RecoveredSignatureView,
    ProgramError,
> {
    if layout_trusted(data, index) {
        Ok(
            RecoveredSignatureView {
                eth_address: data.subrange(ETH_ADDRESS_OFFSET as int, SIGNATURE_OFFSET as int),
                recovery_id: data[RECOVERY_ID_OFFSET as int],
                message: data.subrange(MESSAGE_DATA_OFFSET as int, data.len() as int),
            },
        )
    } else {
        Err(ProgramError::SignatureVerificationFailed)
    }
}

/// Checks the data of the recovery instruction found at `instruction_index`
/// and hands out address, recovery id and message.
///
/// The index fields are held against the position at which the instruction
/// was actually found, never against a value the caller asserts, so a record
/// that points at another instruction is rejected.
pub fn parse_recovery(data: &[u8], instruction_index: u8) -> (r: Result<
    RecoveredSignature,
    ProgramError,
>)
    ensures
        yields(r, recovery_of(data@, instruction_index)),
{
    if data.len() < MESSAGE_DATA_OFFSET {
        return Err(ProgramError::SignatureVerificationFailed);
    }
    if data[0] != 1 {
        return Err(ProgramError::SignatureVerificationFailed);
    }
    let offsets = match SecpSignatureOffsets::try_from_slice(
        vstd::slice::slice_subrange(data, 1, DATA_START),
    ) {
        Ok(o) => o,
        Err(_) => { return Err(ProgramError::SignatureVerificationFailed); },
    };
    if offsets.message_instruction_index != instruction_index
        || offsets.signature_instruction_index != instruction_index
        || offsets.eth_address_instruction_index != instruction_index {
        return Err(ProgramError::SignatureVerificationFailed);
    }
    if offsets.eth_address_offset != ETH_ADDRESS_OFFSET as u16 || offsets.signature_offset
        != SIGNATURE_OFFSET as u16 || offsets.message_data_offset != MESSAGE_DATA_OFFSET as u16 {
        return Err(ProgramError::SignatureVerificationFailed);
    }
    let message_end: usize = MESSAGE_DATA_OFFSET + offsets.message_data_size as usize;
    if data.len() != message_end {
        return Err(ProgramError::SignatureVerificationFailed);
    }
    Ok(
        RecoveredSignature {
            eth_address: array20_at(data, ETH_ADDRESS_OFFSET),
            recovery_id: data[RECOVERY_ID_OFFSET],
            message: copy_range(data, MESSAGE_DATA_OFFSET, data.len()),
        },
    )
}

} // verus!
