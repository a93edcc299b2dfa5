//! Instruction types.

use crate::account::{
    meta_views, readonly, writable, AccountMeta, AccountMetaView, Instruction, InstructionView,
};
use crate::codec::{
    append, array20_at, copy_range, read_u32, read_u64, string_from_utf8, write_u32, write_u64,
};
use crate::error::{yields, ProgramError};
use crate::ledger::{
    spec_sysvar_instructions_id, spec_sysvar_rent_id, spec_system_program_id,
    spec_token_program_id, system_program_id, sysvar_instructions_id, sysvar_rent_id,
    token_program_id,
};
use crate::pda::{spec_base_address, spec_derived_pair};
use crate::reward_manager::utils::{
    find_derived_pair, find_program_address, sender_seed, spec_sender_seed_prefix,
    spec_transfer_seed_prefix, spec_verify_transfer_seed_prefix, transfer_seed,
    verified_messages_seed,
};
use vstd::bytes::{spec_u32_from_le_bytes, spec_u32_to_le_bytes, spec_u64_from_le_bytes, spec_u64_to_le_bytes};
use vstd::prelude::*;
use vstd::utf8::{decode_utf8, encode_utf8, valid_utf8};

verus! {

/// `InitRewardManager` instruction args.
#[derive(Clone, Copy, Debug, PartialEq, Eq)]
pub struct InitRewardManagerArgs {
    /// Number of signer votes required for sending rewards.
    pub min_votes: u8,
}

/// `CreateSender` instruction args.
#[derive(Clone, Copy, Debug, PartialEq, Eq)]
pub struct CreateSenderArgs {
    /// Ethereum address.
    pub eth_address: [u8; 20],
    /// Sender operator.
    pub operator: [u8; 20],
}

/// `CreateSenderPublic` instruction args.
#[derive(Clone, Copy, Debug, PartialEq, Eq)]
pub struct CreateSenderPublicArgs {
    /// Ethereum address.
    pub eth_address: [u8; 20],
    /// Sender operator.
    pub operator: [u8; 20],
}

/// `SubmitAttestations` instruction args.
#[derive(Clone, Debug, PartialEq, Eq)]
pub struct SubmitAttestationsArgs {
    /// Id that the attestations are submitted under.
    pub id: String,
}

/// `EvaluateAttestations` instruction args.
#[derive(Clone, Debug, PartialEq, Eq)]
pub struct EvaluateAttestationsArgs {
    /// Amount to transfer.
    pub amount: u64,
    /// Id that the attestations were submitted under.
    pub id: String,
    /// Recipient's Ethereum address.
    pub eth_recipient: [u8; 20],
}

/// Instruction definition.
#[derive(Clone, Debug, PartialEq, Eq)]
pub enum Instructions {
    /// Initialize a reward manager.
    ///
    /// 0. `[w]` the account to initialize as reward manager
    /// 1. `[w]` the account to initialize as its token account
    /// 2. `[]` the mint of the token account
    /// 3. `[]` the manager to set
    /// 4. `[]` the reward manager's authority
    /// 5. `[]` token program
    /// 6. `[]` rent sysvar
    InitRewardManager(InitRewardManagerArgs),
    /// Change the manager of a reward manager.
    ///
    /// 0. `[w]` reward manager
    /// 1. `[s]` current manager
    /// 2. `[]` new manager
    ChangeManagerAccount,
    /// Create a sender on the manager's word.
    ///
    /// 0. `[]` reward manager
    /// 1. `[s]` manager
    /// 2. `[]` the reward manager's authority
    /// 3. `[sw]` funder
    /// 4. `[w]` the sender to add
    /// 5. `[]` system program
    /// 6. `[]` rent sysvar
    CreateSender(CreateSenderArgs),
    /// Remove a sender on the manager's word.
    ///
    /// 0. `[]` reward manager
    /// 1. `[s]` manager
    /// 2. `[w]` the sender to remove
    /// 3. `[w]` the account to refund
    /// 4. `[]` system program
    DeleteSender,
    /// Add a sender with other senders attesting.
    ///
    /// 0. `[]` reward manager
    /// 1. `[]` the reward manager's authority
    /// 2. `[sw]` funder
    /// 3. `[w]` the sender to add
    /// 4. `[]` instructions sysvar
    /// 5. `[]` rent sysvar
    /// 6. `[]` system program
    /// 7. `[]` the attesting senders, one after the other
    CreateSenderPublic(CreateSenderPublicArgs),
    /// Remove a sender with other senders attesting.
    ///
    /// 0. `[]` reward manager
    /// 1. `[w]` the sender to remove
    /// 2. `[w]` the account to refund
    /// 3. `[]` instructions sysvar
    /// 4. `[]` the attesting senders, one after the other
    DeleteSenderPublic,
    /// Submit attestations.
    ///
    /// 0. `[w]` the account of the verified messages
    /// 1. `[]` reward manager
    /// 2. `[]` the reward manager's authority
    /// 3. `[sw]` funder
    /// 4. `[]` sender
    /// 5. `[]` rent sysvar
    /// 6. `[]` instructions sysvar
    /// 7. `[]` system program
    SubmitAttestations(SubmitAttestationsArgs),
    /// Evaluate attestations and transfer tokens to the recipient.
    ///
    /// 0. `[w]` the account of the verified messages
    /// 1. `[]` reward manager
    /// 2. `[]` the reward manager's authority
    /// 3. `[w]` the token account that pays
    /// 4. `[w]` the recipient's token account
    /// 5. `[w]` the account that records the transfer
    /// 6. `[]` the oracle
    /// 7. `[sw]` payer
    /// 8. `[]` rent sysvar
    /// 9. `[]` token program
    /// 10. `[]` system program
    EvaluateAttestations(EvaluateAttestationsArgs),
}

/// An instruction of the reward manager as a mathematical value.
pub enum InstructionsView {
    InitRewardManager(u8),
    ChangeManagerAccount,
    CreateSender(Seq<u8>, Seq<u8>),
    DeleteSender,
    CreateSenderPublic(Seq<u8>, Seq<u8>),
    DeleteSenderPublic,
    SubmitAttestations(Seq<char>),
    EvaluateAttestations(u64, Seq<char>, Seq<u8>),
}

impl View for Instructions {
    type V = InstructionsView;

    open spec fn view(&self) -> InstructionsView {
        match *self {
            Instructions::InitRewardManager(args) => InstructionsView::InitRewardManager(
                args.min_votes,
            ),
            Instructions::ChangeManagerAccount => InstructionsView::ChangeManagerAccount,
            Instructions::CreateSender(args) => InstructionsView::CreateSender(
                args.eth_address@,
                args.operator@,
            ),
            Instructions::DeleteSender => InstructionsView::DeleteSender,
            Instructions::CreateSenderPublic(args) => InstructionsView::CreateSenderPublic(
                args.eth_address@,
                args.operator@,
            ),
            Instructions::DeleteSenderPublic => InstructionsView::DeleteSenderPublic,
            Instructions::SubmitAttestations(args) => InstructionsView::SubmitAttestations(
                args.id@,
            ),
            Instructions::EvaluateAttestations(args) => InstructionsView::EvaluateAttestations(
                args.amount,
                args.id@,
                args.eth_recipient@,
            ),
        }
    }
}

/// The bytes that stand for a text: the length of its UTF-8 form in four
/// little-endian bytes, then that form.
pub open spec fn encode_text(text: Seq<char>) -> Seq<u8> {
    spec_u32_to_le_bytes(encode_utf8(text).len() as u32) + encode_utf8(text)
}

/// The text that stands at `at` in `s`, with the place where it ends; `None`
/// where `s` is too short or the bytes are not UTF-8.
pub open spec fn decode_text_at(s: Seq<u8>, at: int) -> Option<(Seq<char>, int)> {
    if 0 <= at && at + 4 <= s.len() {
        let n = spec_u32_from_le_bytes(s.subrange(at, at + 4)) as int;
        if at + 4 + n <= s.len() && valid_utf8(s.subrange(at + 4, at + 4 + n)) {
            Some((decode_utf8(s.subrange(at + 4, at + 4 + n)), at + 4 + n))
        } else {
            None
        }
    } else {
        None
    }
}

/// Reads the text that stands at `at`.
pub fn read_text_at(data: &[u8], at: usize) -> (r: Option<(String, usize)>)
    ensures
        match decode_text_at(data@, at as int) {
            None => r is None,
            Some((text, end)) => r matches Some(found) && found.0@ == text && found.1 == end
                && end <= data@.len(),
        },
{
    if at > data.len() || data.len() - at < 4 {
        return None;
    }
    let n = read_u32(data, at) as usize;
    if data.len() - at - 4 < n {
        return None;
    }
    match string_from_utf8(copy_range(data, at + 4, at + 4 + n)) {
        Some(text) => Some((text, at + 4 + n)),
        None => None,
    }
}

/// Appends a text to `out`. Fails where the text is too long to write.
pub fn write_text(out: &mut Vec<u8>, text: &String) -> (r: Result<(), ProgramError>)
    ensures
        encode_utf8(text@).len() <= u32::MAX ==> r is Ok && final(out)@ == old(out)@ + encode_text(
            text@,
        ),
        encode_utf8(text@).len() > u32::MAX ==> r == Err::<(), ProgramError>(
            ProgramError::DecodeError,
        ) && final(out)@ == old(out)@,
{
    let bytes = text.as_str().as_bytes();
    if bytes.len() > u32::MAX as usize {
        return Err(ProgramError::DecodeError);
    }
    write_u32(out, bytes.len() as u32);
    append(out, bytes);
    proof {
        assert(out@ =~= old(out)@ + encode_text(text@));
    }
    Ok(())
}

impl InstructionsView {
    /// Whether the instruction can be written: the length of its id fits
    /// four bytes.
    pub open spec fn fits(self) -> bool {
        match self {
            InstructionsView::SubmitAttestations(id) => encode_utf8(id).len() <= u32::MAX,
            InstructionsView::EvaluateAttestations(_, id, _) => encode_utf8(id).len() <= u32::MAX,
            _ => true,
        }
    }

    /// The payload that stands for the instruction: one tag byte, the number
    /// of the variant, then the variant's fields in order.
    pub open spec fn encode(self) -> Seq<u8> {
        match self {
            InstructionsView::InitRewardManager(min_votes) => seq![0u8, min_votes],
            InstructionsView::ChangeManagerAccount => seq![1u8],
            InstructionsView::CreateSender(eth_address, operator) => seq![2u8] + eth_address
                + operator,
            InstructionsView::DeleteSender => seq![3u8],
            InstructionsView::CreateSenderPublic(eth_address, operator) => seq![4u8] + eth_address
                + operator,
            InstructionsView::DeleteSenderPublic => seq![5u8],
            InstructionsView::SubmitAttestations(id) => seq![6u8] + encode_text(id),
            InstructionsView::EvaluateAttestations(amount, id, eth_recipient) => seq![7u8]
                + spec_u64_to_le_bytes(amount) + encode_text(id) + eth_recipient,
        }
    }
}

impl Instructions {
    /// The instruction that a payload stands for. The payload must hold
    /// exactly one instruction and nothing more.
    pub open spec fn decode(s: Seq<u8>) -> Result<InstructionsView, ProgramError> {
        if s.len() == 2 && s[0] == 0 {
            Ok(InstructionsView::InitRewardManager(s[1]))
        } else if s.len() == 1 && s[0] == 1 {
            Ok(InstructionsView::ChangeManagerAccount)
        } else if s.len() == 41 && s[0] == 2 {
            Ok(InstructionsView::CreateSender(s.subrange(1, 21), s.subrange(21, 41)))
        } else if s.len() == 1 && s[0] == 3 {
            Ok(InstructionsView::DeleteSender)
        } else if s.len() == 41 && s[0] == 4 {
            Ok(InstructionsView::CreateSenderPublic(s.subrange(1, 21), s.subrange(21, 41)))
        } else if s.len() == 1 && s[0] == 5 {
            Ok(InstructionsView::DeleteSenderPublic)
        } else if s.len() >= 1 && s[0] == 6 {
            match decode_text_at(s, 1) {
                Some((id, end)) if end == s.len() => Ok(InstructionsView::SubmitAttestations(id)),
                _ => Err(ProgramError::DecodeError),
            }
        } else if s.len() >= 9 && s[0] == 7 {
            match decode_text_at(s, 9) {
                Some((id, end)) if end + 20 == s.len() => Ok(
                    InstructionsView::EvaluateAttestations(
                        spec_u64_from_le_bytes(s.subrange(1, 9)),
                        id,
                        s.subrange(end, end + 20),
                    ),
                ),
                _ => Err(ProgramError::DecodeError),
            }
        } else {
            Err(ProgramError::DecodeError)
        }
    }

    /// Reads an instruction from its payload.
    pub fn try_from_slice(data: &[u8]) -> (r: Result<Self, ProgramError>)
        ensures
            yields(r, Self::decode(data@)),
    {
        if data.len() == 0 {
            return Err(ProgramError::DecodeError);
        }
        let tag = data[0];
        if tag == 0 {
            if data.len() == 2 {
                Ok(Instructions::InitRewardManager(InitRewardManagerArgs { min_votes: data[1] }))
            } else {
                Err(ProgramError::DecodeError)
            }
        } else if tag == 1 {
            if data.len() == 1 {
                Ok(Instructions::ChangeManagerAccount)
            } else {
                Err(ProgramError::DecodeError)
            }
        } else if tag == 2 {
            if data.len() == 41 {
                Ok(
                    Instructions::CreateSender(
                        CreateSenderArgs {
                            eth_address: array20_at(data, 1),
                            operator: array20_at(data, 21),
                        },
                    ),
                )
            } else {
                Err(ProgramError::DecodeError)
            }
        } else if tag == 3 {
            if data.len() == 1 {
                Ok(Instructions::DeleteSender)
            } else {
                Err(ProgramError::DecodeError)
            }
        } else if tag == 4 {
            if data.len() == 41 {
                Ok(
                    Instructions::CreateSenderPublic(
                        CreateSenderPublicArgs {
                            eth_address: array20_at(data, 1),
                            operator: array20_at(data, 21),
                        },
                    ),
                )
            } else {
                Err(ProgramError::DecodeError)
            }
        } else if tag == 5 {
            if data.len() == 1 {
                Ok(Instructions::DeleteSenderPublic)
            } else {
                Err(ProgramError::DecodeError)
            }
        } else if tag == 6 {
            match read_text_at(data, 1) {
                Some((id, end)) => {
                    if end == data.len() {
                        Ok(Instructions::SubmitAttestations(SubmitAttestationsArgs { id }))
                    } else {
                        Err(ProgramError::DecodeError)
                    }
                },
                None => Err(ProgramError::DecodeError),
            }
        } else if tag == 7 {
            if data.len() < 9 {
                return Err(ProgramError::DecodeError);
            }
            let amount = read_u64(data, 1);
            match read_text_at(data, 9) {
                Some((id, end)) => {
                    if data.len() - end == 20 {
                        Ok(
                            Instructions::EvaluateAttestations(
                                EvaluateAttestationsArgs {
                                    amount,
                                    id,
                                    eth_recipient: array20_at(data, end),
                                },
                            ),
                        )
                    } else {
                        Err(ProgramError::DecodeError)
                    }
                },
                None => Err(ProgramError::DecodeError),
            }
        } else {
            Err(ProgramError::DecodeError)
        }
    }

    /// Writes the payload of the instruction. Fails where an id is too long
    /// to write.
    pub fn try_to_vec(&self) -> (r: Result<Vec<u8>, ProgramError>)
        ensures
            yields(
                r,
                if self@.fits() {
                    Ok(self@.encode())
                } else {
                    Err(ProgramError::DecodeError)
                },
            ),
    {
        let mut out: Vec<u8> = Vec::new();
        match self {
            Instructions::InitRewardManager(args) => {
                out.push(0);
                out.push(args.min_votes);
            },
            Instructions::ChangeManagerAccount => {
                out.push(1);
            },
            Instructions::CreateSender(args) => {
                out.push(2);
                append(&mut out, args.eth_address.as_slice());
                append(&mut out, args.operator.as_slice());
            },
            Instructions::DeleteSender => {
                out.push(3);
            },
            Instructions::CreateSenderPublic(args) => {
                out.push(4);
                append(&mut out, args.eth_address.as_slice());
                append(&mut out, args.operator.as_slice());
            },
            Instructions::DeleteSenderPublic => {
                out.push(5);
            },
            Instructions::SubmitAttestations(args) => {
                out.push(6);
                match write_text(&mut out, &args.id) {
                    Ok(()) => {},
                    Err(e) => { return Err(e); },
                }
            },
            Instructions::EvaluateAttestations(args) => {
                out.push(7);
                write_u64(&mut out, args.amount);
                match write_text(&mut out, &args.id) {
                    Ok(()) => {},
                    Err(e) => { return Err(e); },
                }
                append(&mut out, args.eth_recipient.as_slice());
            },
        }
        proof {
            assert(out@ =~= self@.encode());
        }
        Ok(out)
    }
}

/// The instruction that carries `payload` to `program_id`, or the failure
/// to write the payload.
pub open spec fn carried(
    program_id: Seq<u8>,
    accounts: Seq<AccountMetaView>,
    payload: InstructionsView,
) -> Result<InstructionView, ProgramError> {
    if payload.fits() {
        Ok(InstructionView { program_id, accounts, data: payload.encode() })
    } else {
        Err(ProgramError::DecodeError)
    }
}

/// The instruction that carries `payload` to the accounts that `accounts`
/// lists for a derived authority and account, or `InvalidSeeds` where the
/// platform derives none.
pub open spec fn carried_to_derived(
    program_id: Seq<u8>,
    derived: Option<(Seq<u8>, Seq<u8>, u8)>,
    accounts: spec_fn(Seq<u8>, Seq<u8>) -> Seq<AccountMetaView>,
    payload: InstructionsView,
) -> Result<InstructionView, ProgramError> {
    match derived {
        None => Err(ProgramError::InvalidSeeds),
        Some((authority, address, _)) => carried(program_id, accounts(authority, address), payload),
    }
}

/// Puts an instruction together from its payload and the accounts it
/// declares.
fn carry(program_id: &[u8; 32], accounts: Vec<AccountMeta>, payload: &Instructions) -> (r: Result<
    Instruction,
    ProgramError,
>)
    ensures
        yields(r, carried(program_id@, meta_views(accounts@), payload@)),
{
    match payload.try_to_vec() {
        Ok(data) => Ok(Instruction { program_id: *program_id, accounts, data }),
        Err(e) => Err(e),
    }
}

/// Appends the attesting senders to the declared accounts, read-only.
fn declare_signers(accounts: &mut Vec<AccountMeta>, signers: &[[u8; 32]])
    ensures
        meta_views(final(accounts)@) == meta_views(old(accounts)@) + signer_metas(signers@),
{
    let ghost before = accounts@;
    let mut i: usize = 0;
    while i < signers.len()
        invariant
            i <= signers@.len(),
            accounts@.len() == before.len() + i,
            forall|k: int| 0 <= k < before.len() ==> accounts@[k] == before[k],
            forall|j: int|
                before.len() <= j < before.len() + i ==> (#[trigger] accounts@[j])@ == readonly(
                    signers@[j - before.len()]@,
                    false,
                ),
        decreases signers@.len() - i,
    {
        accounts.push(AccountMeta::new_readonly(signers[i], false));
        i += 1;
    }
    proof {
        assert(meta_views(accounts@) =~= meta_views(before) + signer_metas(signers@));
    }
}

/// The attesting senders as declared accounts: read-only, not signing.
pub open spec fn signer_metas(signers: Seq<[u8; 32]>) -> Seq<AccountMetaView> {
    Seq::new(signers.len(), |i: int| readonly(signers[i]@, false))
}

/// The accounts of an `InitRewardManager` instruction.
pub open spec fn init_accounts(
    reward_manager: Seq<u8>,
    token_account: Seq<u8>,
    mint: Seq<u8>,
    manager: Seq<u8>,
    authority: Seq<u8>,
) -> Seq<AccountMetaView> {
    seq![
        writable(reward_manager, false),
        writable(token_account, false),
        readonly(mint, false),
        readonly(manager, false),
        readonly(authority, false),
        readonly(spec_token_program_id(), false),
        readonly(spec_sysvar_rent_id(), false),
    ]
}

/// Creates an `InitRewardManager` instruction for a reward manager whose
/// authority is `authority`.
pub fn init_with_authority(
    program_id: &[u8; 32],
    reward_manager: &[u8; 32],
    token_account: &[u8; 32],
    mint: &[u8; 32],
    manager: &[u8; 32],
    authority: &[u8; 32],
    min_votes: u8,
) -> (r: Result<Instruction, ProgramError>)
    ensures
        yields(
            r,
            carried(
                program_id@,
                init_accounts(reward_manager@, token_account@, mint@, manager@, authority@),
                InstructionsView::InitRewardManager(min_votes),
            ),
        ),
{
    let mut accounts: Vec<AccountMeta> = Vec::new();
    accounts.push(AccountMeta::new(*reward_manager, false));
    accounts.push(AccountMeta::new(*token_account, false));
    accounts.push(AccountMeta::new_readonly(*mint, false));
    accounts.push(AccountMeta::new_readonly(*manager, false));
    accounts.push(AccountMeta::new_readonly(*authority, false));
    accounts.push(AccountMeta::new_readonly(token_program_id(), false));
    accounts.push(AccountMeta::new_readonly(sysvar_rent_id(), false));
    proof {
        assert(meta_views(accounts@) =~= init_accounts(
            reward_manager@,
            token_account@,
            mint@,
            manager@,
            authority@,
        ));
    }
    carry(
        program_id,
        accounts,
        &Instructions::InitRewardManager(InitRewardManagerArgs { min_votes }),
    )
}

/// Creates an `InitRewardManager` instruction.
pub fn init(
    program_id: &[u8; 32],
    reward_manager: &[u8; 32],
    token_account: &[u8; 32],
    mint: &[u8; 32],
    manager: &[u8; 32],
    min_votes: u8,
) -> (r: Result<Instruction, ProgramError>)
    ensures
        yields(
            r,
            match spec_base_address(program_id@, reward_manager@) {
                None => Err(ProgramError::InvalidSeeds),
                Some((authority, _)) => carried(
                    program_id@,
                    init_accounts(reward_manager@, token_account@, mint@, manager@, authority),
                    InstructionsView::InitRewardManager(min_votes),
                ),
            },
        ),
{
    match find_program_address(program_id, reward_manager) {
        Some((authority, _)) => init_with_authority(
            program_id,
            reward_manager,
            token_account,
            mint,
            manager,
            &authority,
            min_votes,
        ),
        None => Err(ProgramError::InvalidSeeds),
    }
}

/// Creates a `ChangeManagerAccount` instruction.
pub fn change_manager_authority(
    program_id: &[u8; 32],
    reward_manager: &[u8; 32],
    current_authority: &[u8; 32],
    new_authority: &[u8; 32],
) -> (r: Result<Instruction, ProgramError>)
    ensures
        yields(
            r,
            carried(
                program_id@,
                seq![
                    writable(reward_manager@, false),
                    readonly(current_authority@, true),
                    readonly(new_authority@, false),
                ],
                InstructionsView::ChangeManagerAccount,
            ),
        ),
{
    let mut accounts: Vec<AccountMeta> = Vec::new();
    accounts.push(AccountMeta::new(*reward_manager, false));
    accounts.push(AccountMeta::new_readonly(*current_authority, true));
    accounts.push(AccountMeta::new_readonly(*new_authority, false));
    proof {
        assert(meta_views(accounts@) =~= seq![
            writable(reward_manager@, false),
            readonly(current_authority@, true),
            readonly(new_authority@, false),
        ]);
    }
    carry(program_id, accounts, &Instructions::ChangeManagerAccount)
}

/// The accounts of a `CreateSender` instruction.
pub open spec fn create_sender_accounts(
    reward_manager: Seq<u8>,
    manager_account: Seq<u8>,
    funder_account: Seq<u8>,
    authority: Seq<u8>,
    sender: Seq<u8>,
) -> Seq<AccountMetaView> {
    seq![
        readonly(reward_manager, false),
        readonly(manager_account, true),
        readonly(authority, false),
        writable(funder_account, true),
        writable(sender, false),
        readonly(spec_system_program_id(), false),
        readonly(spec_sysvar_rent_id(), false),
    ]
}

/// Creates a `CreateSender` instruction for the sender account at `sender`
/// under the authority at `authority`.
pub fn create_sender_at(
    program_id: &[u8; 32],
    reward_manager: &[u8; 32],
    manager_account: &[u8; 32],
    funder_account: &[u8; 32],
    authority: &[u8; 32],
    sender: &[u8; 32],
    eth_address: [u8; 20],
    operator: [u8; 20],
) -> (r: Result<Instruction, ProgramError>)
    ensures
        yields(
            r,
            carried(
                program_id@,
                create_sender_accounts(
                    reward_manager@,
                    manager_account@,
                    funder_account@,
                    authority@,
                    sender@,
                ),
                InstructionsView::CreateSender(eth_address@, operator@),
            ),
        ),
{
    let mut accounts: Vec<AccountMeta> = Vec::new();
    accounts.push(AccountMeta::new_readonly(*reward_manager, false));
    accounts.push(AccountMeta::new_readonly(*manager_account, true));
    accounts.push(AccountMeta::new_readonly(*authority, false));
    accounts.push(AccountMeta::new(*funder_account, true));
    accounts.push(AccountMeta::new(*sender, false));
    accounts.push(AccountMeta::new_readonly(system_program_id(), false));
    accounts.push(AccountMeta::new_readonly(sysvar_rent_id(), false));
    proof {
        assert(meta_views(accounts@) =~= create_sender_accounts(
            reward_manager@,
            manager_account@,
            funder_account@,
            authority@,
            sender@,
        ));
    }
    carry(
        program_id,
        accounts,
        &Instructions::CreateSender(CreateSenderArgs { eth_address, operator }),
    )
}

/// Creates a `CreateSender` instruction.
pub fn create_sender(
    program_id: &[u8; 32],
    reward_manager: &[u8; 32],
    manager_account: &[u8; 32],
    funder_account: &[u8; 32],
    eth_address: [u8; 20],
    operator: [u8; 20],
) -> (r: Result<Instruction, ProgramError>)
    ensures
        yields(
            r,
            carried_to_derived(
                program_id@,
                spec_derived_pair(
                    program_id@,
                    reward_manager@,
                    spec_sender_seed_prefix() + eth_address@,
                ),
                |authority: Seq<u8>, sender: Seq<u8>|
                    create_sender_accounts(
                        reward_manager@,
                        manager_account@,
                        funder_account@,
                        authority,
                        sender,
                    ),
                InstructionsView::CreateSender(eth_address@, operator@),
            ),
        ),
{
    let seed = sender_seed(&eth_address);
    match find_derived_pair(program_id, reward_manager, seed.as_slice()) {
        Some((authority, sender, _)) => create_sender_at(
            program_id,
            reward_manager,
            manager_account,
            funder_account,
            &authority,
            &sender,
            eth_address,
            operator,
        ),
        None => Err(ProgramError::InvalidSeeds),
    }
}

/// The accounts of a `DeleteSender` instruction.
pub open spec fn delete_sender_accounts(
    reward_manager: Seq<u8>,
    manager_account: Seq<u8>,
    refunder_account: Seq<u8>,
    sender: Seq<u8>,
) -> Seq<AccountMetaView> {
    seq![
        readonly(reward_manager, false),
        readonly(manager_account, true),
        writable(sender, false),
        writable(refunder_account, false),
        readonly(spec_system_program_id(), false),
    ]
}

/// Creates a `DeleteSender` instruction for the sender account at `sender`.
pub fn delete_sender_at(
    program_id: &[u8; 32],
    reward_manager: &[u8; 32],
    manager_account: &[u8; 32],
    refunder_account: &[u8; 32],
    sender: &[u8; 32],
) -> (r: Result<Instruction, ProgramError>)
    ensures
        yields(
            r,
            carried(
                program_id@,
                delete_sender_accounts(
                    reward_manager@,
                    manager_account@,
                    refunder_account@,
                    sender@,
                ),
                InstructionsView::DeleteSender,
            ),
        ),
{
    let mut accounts: Vec<AccountMeta> = Vec::new();
    accounts.push(AccountMeta::new_readonly(*reward_manager, false));
    accounts.push(AccountMeta::new_readonly(*manager_account, true));
    accounts.push(AccountMeta::new(*sender, false));
    accounts.push(AccountMeta::new(*refunder_account, false));
    accounts.push(AccountMeta::new_readonly(system_program_id(), false));
    proof {
        assert(meta_views(accounts@) =~= delete_sender_accounts(
            reward_manager@,
            manager_account@,
            refunder_account@,
            sender@,
        ));
    }
    carry(program_id, accounts, &Instructions::DeleteSender)
}

/// Creates a `DeleteSender` instruction.
pub fn delete_sender(
    program_id: &[u8; 32],
    reward_manager: &[u8; 32],
    manager_account: &[u8; 32],
    refunder_account: &[u8; 32],
    eth_address: [u8; 20],
) -> (r: Result<Instruction, ProgramError>)
    ensures
        yields(
            r,
            carried_to_derived(
                program_id@,
                spec_derived_pair(
                    program_id@,
                    reward_manager@,
                    spec_sender_seed_prefix() + eth_address@,
                ),
                |authority: Seq<u8>, sender: Seq<u8>|
                    delete_sender_accounts(
                        reward_manager@,
                        manager_account@,
                        refunder_account@,
                        sender,
                    ),
                InstructionsView::DeleteSender,
            ),
        ),
{
    let seed = sender_seed(&eth_address);
    match find_derived_pair(program_id, reward_manager, seed.as_slice()) {
        Some((_, sender, _)) => delete_sender_at(
            program_id,
            reward_manager,
            manager_account,
            refunder_account,
            &sender,
        ),
        None => Err(ProgramError::InvalidSeeds),
    }
}

/// The accounts of a `CreateSenderPublic` instruction.
pub open spec fn create_sender_public_accounts(
    reward_manager: Seq<u8>,
    funder: Seq<u8>,
    authority: Seq<u8>,
    sender: Seq<u8>,
    signers: Seq<[u8; 32]>,
) -> Seq<AccountMetaView> {
    seq![
        readonly(reward_manager, false),
        readonly(authority, false),
        writable(funder, true),
        writable(sender, false),
        readonly(spec_sysvar_instructions_id(), false),
        readonly(spec_sysvar_rent_id(), false),
        readonly(spec_system_program_id(), false),
    ] + signer_metas(signers)
}

/// Creates a `CreateSenderPublic` instruction for the sender account at
/// `sender` under the authority at `authority`.
pub fn create_sender_public_at(
    program_id: &[u8; 32],
    reward_manager: &[u8; 32],
    funder: &[u8; 32],
    authority: &[u8; 32],
    sender: &[u8; 32],
    eth_address: [u8; 20],
    operator: [u8; 20],
    signers: &[[u8; 32]],
) -> (r: Result<Instruction, ProgramError>)
    ensures
        yields(
            r,
            carried(
                program_id@,
                create_sender_public_accounts(
                    reward_manager@,
                    funder@,
                    authority@,
                    sender@,
                    signers@,
                ),
                InstructionsView::CreateSenderPublic(eth_address@, operator@),
            ),
        ),
{
    let mut accounts: Vec<AccountMeta> = Vec::new();
    accounts.push(AccountMeta::new_readonly(*reward_manager, false));
    accounts.push(AccountMeta::new_readonly(*authority, false));
    accounts.push(AccountMeta::new(*funder, true));
    accounts.push(AccountMeta::new(*sender, false));
    accounts.push(AccountMeta::new_readonly(sysvar_instructions_id(), false));
    accounts.push(AccountMeta::new_readonly(sysvar_rent_id(), false));
    accounts.push(AccountMeta::new_readonly(system_program_id(), false));
    proof {
        assert(meta_views(accounts@) =~= seq![
            readonly(reward_manager@, false),
            readonly(authority@, false),
            writable(funder@, true),
            writable(sender@, false),
            readonly(spec_sysvar_instructions_id(), false),
            readonly(spec_sysvar_rent_id(), false),
            readonly(spec_system_program_id(), false),
        ]);
    }
    declare_signers(&mut accounts, signers);
    carry(
        program_id,
        accounts,
        &Instructions::CreateSenderPublic(CreateSenderPublicArgs { eth_address, operator }),
    )
}

/// Creates a `CreateSenderPublic` instruction.
pub fn create_sender_public(
    program_id: &[u8; 32],
    reward_manager: &[u8; 32],
    funder: &[u8; 32],
    eth_address: [u8; 20],
    operator: [u8; 20],
    signers: &[[u8; 32]],
) -> (r: Result<Instruction, ProgramError>)
    ensures
        yields(
            r,
            carried_to_derived(
                program_id@,
                spec_derived_pair(
                    program_id@,
                    reward_manager@,
                    spec_sender_seed_prefix() + eth_address@,
                ),
                |authority: Seq<u8>, sender: Seq<u8>|
                    create_sender_public_accounts(
                        reward_manager@,
                        funder@,
                        authority,
                        sender,
                        signers@,
                    ),
                InstructionsView::CreateSenderPublic(eth_address@, operator@),
            ),
        ),
{
    let seed = sender_seed(&eth_address);
    match find_derived_pair(program_id, reward_manager, seed.as_slice()) {
        Some((authority, sender, _)) => create_sender_public_at(
            program_id,
            reward_manager,
            funder,
            &authority,
            &sender,
            eth_address,
            operator,
            signers,
        ),
        None => Err(ProgramError::InvalidSeeds),
    }
}

/// The accounts of a `DeleteSenderPublic` instruction.
pub open spec fn delete_sender_public_accounts(
    reward_manager: Seq<u8>,
    refunder_account: Seq<u8>,
    sender: Seq<u8>,
    signers: Seq<[u8; 32]>,
) -> Seq<AccountMetaView> {
    seq![
        readonly(reward_manager, false),
        writable(sender, false),
        writable(refunder_account, false),
        readonly(spec_sysvar_instructions_id(), false),
    ] + signer_metas(signers)
}

/// Creates a `DeleteSenderPublic` instruction for the sender account at
/// `sender`.
pub fn delete_sender_public_at(
    program_id: &[u8; 32],
    reward_manager: &[u8; 32],
    refunder_account: &[u8; 32],
    sender: &[u8; 32],
    signers: &[[u8; 32]],
) -> (r: Result<Instruction, ProgramError>)
    ensures
        yields(
            r,
            carried(
                program_id@,
                delete_sender_public_accounts(
                    reward_manager@,
                    refunder_account@,
                    sender@,
                    signers@,
                ),
                InstructionsView::DeleteSenderPublic,
            ),
        ),
{
    let mut accounts: Vec<AccountMeta> = Vec::new();
    accounts.push(AccountMeta::new_readonly(*reward_manager, false));
    accounts.push(AccountMeta::new(*sender, false));
    accounts.push(AccountMeta::new(*refunder_account, false));
    accounts.push(AccountMeta::new_readonly(sysvar_instructions_id(), false));
    proof {
        assert(meta_views(accounts@) =~= seq![
            readonly(reward_manager@, false),
            writable(sender@, false),
            writable(refunder_account@, false),
            readonly(spec_sysvar_instructions_id(), false),
        ]);
    }
    declare_signers(&mut accounts, signers);
    carry(program_id, accounts, &Instructions::DeleteSenderPublic)
}

/// Creates a `DeleteSenderPublic` instruction.
pub fn delete_sender_public(
    program_id: &[u8; 32],
    reward_manager: &[u8; 32],
    refunder_account: &[u8; 32],
    eth_address: [u8; 20],
    signers: &[[u8; 32]],
) -> (r: Result<Instruction, ProgramError>)
    ensures
        yields(
            r,
            carried_to_derived(
                program_id@,
                spec_derived_pair(
                    program_id@,
                    reward_manager@,
                    spec_sender_seed_prefix() + eth_address@,
                ),
                |authority: Seq<u8>, sender: Seq<u8>|
                    delete_sender_public_accounts(
                        reward_manager@,
                        refunder_account@,
                        sender,
                        signers@,
                    ),
                InstructionsView::DeleteSenderPublic,
            ),
        ),
{
    let seed = sender_seed(&eth_address);
    match find_derived_pair(program_id, reward_manager, seed.as_slice()) {
        Some((_, sender, _)) => delete_sender_public_at(
            program_id,
            reward_manager,
            refunder_account,
            &sender,
            signers,
        ),
        None => Err(ProgramError::InvalidSeeds),
    }
}

/// The accounts of a `SubmitAttestations` instruction.
pub open spec fn submit_attestations_accounts(
    reward_manager: Seq<u8>,
    sender: Seq<u8>,
    funder: Seq<u8>,
    authority: Seq<u8>,
    verified_messages: Seq<u8>,
) -> Seq<AccountMetaView> {
    seq![
        writable(verified_messages, false),
        readonly(reward_manager, false),
        readonly(authority, false),
        writable(funder, true),
        readonly(sender, false),
        readonly(spec_sysvar_rent_id(), false),
        readonly(spec_sysvar_instructions_id(), false),
        readonly(spec_system_program_id(), false),
    ]
}

/// Creates a `SubmitAttestations` instruction for the account of verified
/// messages at `verified_messages` under the authority at `authority`.
pub fn submit_attestations_at(
    program_id: &[u8; 32],
    reward_manager: &[u8; 32],
    sender: &[u8; 32],
    funder: &[u8; 32],
    authority: &[u8; 32],
    verified_messages: &[u8; 32],
    id: String,
) -> (r: Result<Instruction, ProgramError>)
    ensures
        yields(
            r,
            carried(
                program_id@,
                submit_attestations_accounts(
                    reward_manager@,
                    sender@,
                    funder@,
                    authority@,
                    verified_messages@,
                ),
                InstructionsView::SubmitAttestations(id@),
            ),
        ),
{
    let mut accounts: Vec<AccountMeta> = Vec::new();
    accounts.push(AccountMeta::new(*verified_messages, false));
    accounts.push(AccountMeta::new_readonly(*reward_manager, false));
    accounts.push(AccountMeta::new_readonly(*authority, false));
    accounts.push(AccountMeta::new(*funder, true));
    accounts.push(AccountMeta::new_readonly(*sender, false));
    accounts.push(AccountMeta::new_readonly(sysvar_rent_id(), false));
    accounts.push(AccountMeta::new_readonly(sysvar_instructions_id(), false));
    accounts.push(AccountMeta::new_readonly(system_program_id(), false));
    proof {
        assert(meta_views(accounts@) =~= submit_attestations_accounts(
            reward_manager@,
            sender@,
            funder@,
            authority@,
            verified_messages@,
        ));
    }
    carry(program_id, accounts, &Instructions::SubmitAttestations(SubmitAttestationsArgs { id }))
}

/// Creates a `SubmitAttestations` instruction.
pub fn submit_attestations(
    program_id: &[u8; 32],
    reward_manager: &[u8; 32],
    sender: &[u8; 32],
    funder: &[u8; 32],
    id: String,
) -> (r: Result<Instruction, ProgramError>)
    ensures
        yields(
            r,
            carried_to_derived(
                program_id@,
                spec_derived_pair(
                    program_id@,
                    reward_manager@,
                    spec_verify_transfer_seed_prefix() + encode_utf8(id@),
                ),
                |authority: Seq<u8>, verified_messages: Seq<u8>|
                    submit_attestations_accounts(
                        reward_manager@,
                        sender@,
                        funder@,
                        authority,
                        verified_messages,
                    ),
                InstructionsView::SubmitAttestations(id@),
            ),
        ),
{
    let seed = verified_messages_seed(id.as_str().as_bytes());
    match find_derived_pair(program_id, reward_manager, seed.as_slice()) {
        Some((authority, verified_messages, _)) => submit_attestations_at(
            program_id,
            reward_manager,
            sender,
            funder,
            &authority,
            &verified_messages,
            id,
        ),
        None => Err(ProgramError::InvalidSeeds),
    }
}

/// The accounts of an `EvaluateAttestations` instruction.
pub open spec fn evaluate_attestations_accounts(
    verified_messages: Seq<u8>,
    reward_manager: Seq<u8>,
    reward_token_source: Seq<u8>,
    reward_token_recipient: Seq<u8>,
    bot_oracle: Seq<u8>,
    payer: Seq<u8>,
    authority: Seq<u8>,
    transfer_account: Seq<u8>,
) -> Seq<AccountMetaView> {
    seq![
        writable(verified_messages, false),
        readonly(reward_manager, false),
        readonly(authority, false),
        writable(reward_token_source, false),
        writable(reward_token_recipient, false),
        writable(transfer_account, false),
        readonly(bot_oracle, false),
        writable(payer, true),
        readonly(spec_sysvar_rent_id(), false),
        readonly(spec_token_program_id(), false),
        readonly(spec_system_program_id(), false),
    ]
}

/// The keys that an `EvaluateAttestations` instruction is built for.
#[derive(Clone, Copy, Debug)]
pub struct EvaluationAccounts {
    /// The account of the verified messages.
    pub verified_messages: [u8; 32],
    /// The reward manager.
    pub reward_manager: [u8; 32],
    /// The token account that pays.
    pub reward_token_source: [u8; 32],
    /// The recipient's token account.
    pub reward_token_recipient: [u8; 32],
    /// The oracle.
    pub bot_oracle: [u8; 32],
    /// The payer.
    pub payer: [u8; 32],
}

impl EvaluationAccounts {
    /// The declared accounts under a derived authority and transfer account.
    pub open spec fn declared(self, authority: Seq<u8>, transfer_account: Seq<u8>) -> Seq<
        AccountMetaView,
    > {
        evaluate_attestations_accounts(
            self.verified_messages@,
            self.reward_manager@,
            self.reward_token_source@,
            self.reward_token_recipient@,
            self.bot_oracle@,
            self.payer@,
            authority,
            transfer_account,
        )
    }
}

/// Creates an `EvaluateAttestations` instruction for the transfer account at
/// `transfer_account` under the authority at `authority`.
pub fn evaluate_attestations_at(
    program_id: &[u8; 32],
    keys: &EvaluationAccounts,
    authority: &[u8; 32],
    transfer_account: &[u8; 32],
    amount: u64,
    id: String,
    eth_recipient: [u8; 20],
) -> (r: Result<Instruction, ProgramError>)
    ensures
        yields(
            r,
            carried(
                program_id@,
                keys.declared(authority@, transfer_account@),
                InstructionsView::EvaluateAttestations(amount, id@, eth_recipient@),
            ),
        ),
{
    let mut accounts: Vec<AccountMeta> = Vec::new();
    accounts.push(AccountMeta::new(keys.verified_messages, false));
    accounts.push(AccountMeta::new_readonly(keys.reward_manager, false));
    accounts.push(AccountMeta::new_readonly(*authority, false));
    accounts.push(AccountMeta::new(keys.reward_token_source, false));
    accounts.push(AccountMeta::new(keys.reward_token_recipient, false));
    accounts.push(AccountMeta::new(*transfer_account, false));
    accounts.push(AccountMeta::new_readonly(keys.bot_oracle, false));
    accounts.push(AccountMeta::new(keys.payer, true));
    accounts.push(AccountMeta::new_readonly(sysvar_rent_id(), false));
    accounts.push(AccountMeta::new_readonly(token_program_id(), false));
    accounts.push(AccountMeta::new_readonly(system_program_id(), false));
    proof {
        assert(meta_views(accounts@) =~= keys.declared(authority@, transfer_account@));
    }
    carry(
        program_id,
        accounts,
        &Instructions::EvaluateAttestations(EvaluateAttestationsArgs { amount, id, eth_recipient }),
    )
}

/// Creates an `EvaluateAttestations` instruction.
pub fn evaluate_attestations(
    program_id: &[u8; 32],
    verified_messages: &[u8; 32],
    reward_manager: &[u8; 32],
    reward_token_source: &[u8; 32],
    reward_token_recipient: &[u8; 32],
    bot_oracle: &[u8; 32],
    payer: &[u8; 32],
    amount: u64,
    id: String,
    eth_recipient: [u8; 20],
) -> (r: Result<Instruction, ProgramError>)
    ensures
        yields(
            r,
            carried_to_derived(
                program_id@,
                spec_derived_pair(
                    program_id@,
                    reward_manager@,
                    spec_transfer_seed_prefix() + encode_utf8(id@),
                ),
                |authority: Seq<u8>, transfer_account: Seq<u8>|
                    evaluate_attestations_accounts(
                        verified_messages@,
                        reward_manager@,
                        reward_token_source@,
                        reward_token_recipient@,
                        bot_oracle@,
                        payer@,
                        authority,
                        transfer_account,
                    ),
                InstructionsView::EvaluateAttestations(amount, id@, eth_recipient@),
            ),
        ),
{
    let keys = EvaluationAccounts {
        verified_messages: *verified_messages,
        reward_manager: *reward_manager,
        reward_token_source: *reward_token_source,
        reward_token_recipient: *reward_token_recipient,
        bot_oracle: *bot_oracle,
        payer: *payer,
    };
    let seed = transfer_seed(id.as_str().as_bytes());
    match find_derived_pair(program_id, reward_manager, seed.as_slice()) {
        Some((authority, transfer_account, _)) => evaluate_attestations_at(
            program_id,
            &keys,
            &authority,
            &transfer_account,
            amount,
            id,
            eth_recipient,
        ),
        None => Err(ProgramError::InvalidSeeds),
    }
}

} // verus!
