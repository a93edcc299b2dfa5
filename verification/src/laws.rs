//! What holds of the programs whatever the transaction: replay is rejected,
//! a threshold is a threshold, no signer counts twice, an offsets record
//! that points elsewhere is never accepted, what was stored is read back,
//! and a disabled owner stays disabled.

use crate::account::Account;
use crate::attestation::{
    attestation_outcome, attestations_outcome, bound_message, threshold_outcome, AttestorView,
};
use crate::claimable_tokens::processor::ethereum_sign_outcome;
use crate::claimable_tokens::state::NonceAccount;
use crate::error::ProgramError;
use crate::eth_registry::processor as registry;
use crate::eth_registry::state::{SignerGroup, SignerGroupView, ValidSigner};
use crate::locator::{companion_at, preceding_companion};
use crate::reward_manager::processor as rewards;
use crate::reward_manager::state::{RewardManager, SenderAccount};
use crate::secp::{layout_trusted, offsets_of};
use vstd::prelude::*;

verus! {

/// Replay, on the counter: an accepted nonce advances the counter by
/// exactly one, and the advanced counter rejects the same nonce.
pub proof fn lemma_counter_rejects_replay(counter: NonceAccount, nonce: u64)
    requires
        counter.accepts(nonce),
    ensures
        counter.advance_outcome(nonce) == Ok::<NonceAccount, ProgramError>(counter.advanced()),
        counter.advanced().nonce == counter.nonce + 1,
        counter.advanced().advance_outcome(nonce) == Err::<NonceAccount, ProgramError>(
            ProgramError::NonceVerificationError,
        ),
{
}

/// The counter rejects every nonce but the one it stands at, and a rejected
/// nonce leaves no new counter behind.
pub proof fn lemma_counter_is_exact(counter: NonceAccount, nonce: u64)
    requires
        nonce != counter.nonce,
    ensures
        counter.advance_outcome(nonce) == Err::<NonceAccount, ProgramError>(
            ProgramError::NonceVerificationError,
        ),
{
}

/// Replay, on the instruction: once an attestation was verified and the
/// advanced counter was stored in the counter account, verifying the same
/// attestation again fails with `NonceVerificationError`.
pub proof fn lemma_replay_rejected(
    program_id: [u8; 32],
    funder: Account,
    instruction_info: Account,
    banks_token_account: Account,
    nonce_account: Account,
    stored_account: Account,
    authority: Account,
    expected_signer: Seq<u8>,
    expected_message: Seq<u8>,
    nonce_rent: u64,
)
    requires
        ethereum_sign_outcome(
            program_id,
            funder,
            instruction_info,
            banks_token_account,
            nonce_account,
            authority,
            expected_signer,
            expected_message,
            nonce_rent,
        ) is Ok,
        stored_account.key == nonce_account.key,
        stored_account.lamports > 0,
        stored_account.data@ == ethereum_sign_outcome(
            program_id,
            funder,
            instruction_info,
            banks_token_account,
            nonce_account,
            authority,
            expected_signer,
            expected_message,
            nonce_rent,
        ).unwrap().nonce_record.encode(),
    ensures
        NonceAccount::current(nonce_account.lamports, nonce_account.data@) is Ok,
        ethereum_sign_outcome(
            program_id,
            funder,
            instruction_info,
            banks_token_account,
            nonce_account,
            authority,
            expected_signer,
            expected_message,
            nonce_rent,
        ).unwrap().nonce_record.nonce == NonceAccount::current(
            nonce_account.lamports,
            nonce_account.data@,
        ).unwrap().nonce + 1,
        ethereum_sign_outcome(
            program_id,
            funder,
            instruction_info,
            banks_token_account,
            stored_account,
            authority,
            expected_signer,
            expected_message,
            nonce_rent,
        ) == Err::<crate::claimable_tokens::processor::SignedTransfer, ProgramError>(
            ProgramError::NonceVerificationError,
        ),
{
    let first = ethereum_sign_outcome(
        program_id,
        funder,
        instruction_info,
        banks_token_account,
        nonce_account,
        authority,
        expected_signer,
        expected_message,
        nonce_rent,
    ).unwrap();
    let counter = NonceAccount::current(nonce_account.lamports, nonce_account.data@).unwrap();
    assert(counter.initialized());
    first.nonce_record.lemma_decode_encode();
}

/// Threshold: fewer attestors than required fail with `NotEnoughSigners`,
/// whatever they attest.
pub proof fn lemma_threshold_not_met(
    sysvar: Account,
    group: Seq<u8>,
    required: nat,
    attestors: Seq<AttestorView>,
    message: Seq<u8>,
    new_operator: Option<Seq<u8>>,
)
    requires
        attestors.len() < required,
    ensures
        threshold_outcome(sysvar, group, required, attestors, message, new_operator) == Err::<
            (),
            ProgramError,
        >(ProgramError::NotEnoughSigners),
{
}

/// Threshold, on the instruction: a sender is not added on the word of
/// fewer senders than the reward manager requires, whatever they attest.
pub proof fn lemma_too_few_senders(
    program_id: Seq<u8>,
    reward_manager: Account,
    authority: Account,
    new_sender: Account,
    sysvar: Account,
    signers: Seq<Account>,
    positions: Seq<u16>,
    eth_address: Seq<u8>,
    operator: Seq<u8>,
)
    requires
        RewardManager::decode(reward_manager.data@) matches Ok(record) && record.initialized()
            && signers.len() < record.min_votes,
    ensures
        rewards::create_sender_public_outcome(
            program_id,
            reward_manager,
            authority,
            new_sender,
            sysvar,
            signers,
            positions,
            eth_address,
            operator,
        ) == Err::<rewards::SenderCreationView, ProgramError>(ProgramError::NotEnoughSigners),
{
}

/// Uniqueness: enough attestors of which two are the same account fail with
/// `RepeatedSigners`, whatever they attest.
pub proof fn lemma_repeated_signer(
    sysvar: Account,
    group: Seq<u8>,
    required: nat,
    attestors: Seq<AttestorView>,
    message: Seq<u8>,
    new_operator: Option<Seq<u8>>,
    first: int,
    second: int,
)
    requires
        attestors.len() >= required,
        0 <= first < second < attestors.len(),
        attestors[first].account == attestors[second].account,
    ensures
        threshold_outcome(sysvar, group, required, attestors, message, new_operator) == Err::<
            (),
            ProgramError,
        >(ProgramError::RepeatedSigners),
{
}

/// Uniqueness, on the instruction: a sender is not added where two of the
/// declared senders are the same account, whatever they attest.
pub proof fn lemma_repeated_sender(
    program_id: Seq<u8>,
    reward_manager: Account,
    authority: Account,
    new_sender: Account,
    sysvar: Account,
    signers: Seq<Account>,
    positions: Seq<u16>,
    eth_address: Seq<u8>,
    operator: Seq<u8>,
    first: int,
    second: int,
)
    requires
        RewardManager::decode(reward_manager.data@) matches Ok(record) && record.initialized()
            && signers.len() >= record.min_votes,
        signers.len() == positions.len(),
        forall|i: int| 0 <= i < signers.len() ==> SenderAccount::decode(signers[i].data@) is Ok,
        0 <= first < second < signers.len(),
        signers[first].key == signers[second].key,
    ensures
        rewards::create_sender_public_outcome(
            program_id,
            reward_manager,
            authority,
            new_sender,
            sysvar,
            signers,
            positions,
            eth_address,
            operator,
        ) == Err::<rewards::SenderCreationView, ProgramError>(ProgramError::RepeatedSigners),
{
    let record = RewardManager::decode(reward_manager.data@).unwrap();
    let attestors = rewards::sender_attestors(signers, positions, record.min_votes).unwrap();
    assert(attestors[first].account == attestors[second].account);
}

/// Threshold, on the registry: a signer is not added on the word of fewer
/// than three signers, whatever they attest.
pub proof fn lemma_too_few_signers(
    signers: Seq<Account>,
    positions: Seq<u16>,
    signer_group: Account,
    new_valid_signer: Account,
    sysvar: Account,
    declared: Seq<Seq<u8>>,
    eth_address: Seq<u8>,
)
    requires
        SignerGroup::decode(signer_group.data@) matches Ok(group) && group.initialized(),
        signers.len() < registry::REQUIRED_SIGNERS,
    ensures
        registry::add_signer_outcome(
            signers,
            positions,
            signer_group,
            new_valid_signer,
            sysvar,
            declared,
            eth_address,
        ) == Err::<crate::eth_registry::state::ValidSignerView, ProgramError>(
            ProgramError::NotEnoughSigners,
        ),
{
}

/// Uniqueness, on the registry: a signer is not added where two of the
/// declared signers are the same account, whatever they attest.
pub proof fn lemma_repeated_valid_signer(
    signers: Seq<Account>,
    positions: Seq<u16>,
    signer_group: Account,
    new_valid_signer: Account,
    sysvar: Account,
    declared: Seq<Seq<u8>>,
    eth_address: Seq<u8>,
    first: int,
    second: int,
)
    requires
        SignerGroup::decode(signer_group.data@) matches Ok(group) && group.initialized(),
        signers.len() >= registry::REQUIRED_SIGNERS,
        signers.len() == positions.len(),
        forall|i: int| 0 <= i < signers.len() ==> ValidSigner::decode(signers[i].data@) is Ok,
        0 <= first < second < signers.len(),
        signers[first].key == signers[second].key,
    ensures
        registry::add_signer_outcome(
            signers,
            positions,
            signer_group,
            new_valid_signer,
            sysvar,
            declared,
            eth_address,
        ) == Err::<crate::eth_registry::state::ValidSignerView, ProgramError>(
            ProgramError::RepeatedSigners,
        ),
{
    let attestors = registry::signer_attestors(signers, positions).unwrap();
    assert(attestors[first].account == attestors[second].account);
}

/// Round-trip, the public path: the record that three attesting signers
/// add is read back as an initialized signer with exactly the given address
/// and group, and the record that they clear is read back as a signer that
/// is not initialized.
pub proof fn lemma_attested_signer_reads_back(
    signers: Seq<Account>,
    positions: Seq<u16>,
    signer_group: Account,
    target: Account,
    sysvar: Account,
    declared: Seq<Seq<u8>>,
    eth_address: Seq<u8>,
)
    requires
        eth_address.len() == 20,
    ensures
        registry::add_signer_outcome(
            signers,
            positions,
            signer_group,
            target,
            sysvar,
            declared,
            eth_address,
        ) matches Ok(stored) ==> {
            &&& ValidSigner::decode(stored.encode()) == Ok::<
                crate::eth_registry::state::ValidSignerView,
                ProgramError,
            >(stored)
            &&& stored.initialized()
            &&& stored.eth_address == eth_address
            &&& stored.signer_group == signer_group.key@
        },
        registry::clear_signer_outcome(
            signers,
            positions,
            signer_group,
            target,
            sysvar,
            declared,
        ) matches Ok(stored) ==> {
            &&& ValidSigner::decode(stored.encode()) == Ok::<
                crate::eth_registry::state::ValidSignerView,
                ProgramError,
            >(stored)
            &&& !stored.initialized()
        },
{
    if let Ok(stored) = registry::add_signer_outcome(
        signers,
        positions,
        signer_group,
        target,
        sysvar,
        declared,
        eth_address,
    ) {
        ValidSigner::lemma_decode_encode(stored);
    }
    if let Ok(stored) = registry::clear_signer_outcome(
        signers,
        positions,
        signer_group,
        target,
        sysvar,
        declared,
    ) {
        ValidSigner::lemma_decode_encode(stored);
    }
}

/// Anti-spoofing, on the layout: an offsets record with an index field that
/// names another instruction than the one it was found in is rejected with
/// `SignatureVerificationFailed`, whatever else the instruction holds.
pub proof fn lemma_foreign_index_rejected(data: Seq<u8>, position: int, expected_signer: Seq<u8>)
    requires
        !(0 <= position <= u8::MAX && offsets_of(data).refers_to(position as u8)),
    ensures
        0 <= position <= u8::MAX ==> !layout_trusted(data, position as u8),
        bound_message(data, position, expected_signer) == Err::<Seq<u8>, ProgramError>(
            ProgramError::SignatureVerificationFailed,
        ),
{
}

/// Anti-spoofing, on a transfer: where the recovery instruction that
/// precedes the transfer holds an offsets record that points at another
/// instruction, the transfer is rejected with `SignatureVerificationFailed`.
pub proof fn lemma_spoofed_transfer_rejected(
    program_id: [u8; 32],
    funder: Account,
    instruction_info: Account,
    banks_token_account: Account,
    nonce_account: Account,
    authority: Account,
    expected_signer: Seq<u8>,
    expected_message: Seq<u8>,
    nonce_rent: u64,
)
    requires
        preceding_companion(instruction_info) matches Ok((position, data)) && !(position
            <= u8::MAX && offsets_of(data).refers_to(position as u8)),
    ensures
        ethereum_sign_outcome(
            program_id,
            funder,
            instruction_info,
            banks_token_account,
            nonce_account,
            authority,
            expected_signer,
            expected_message,
            nonce_rent,
        ) == Err::<crate::claimable_tokens::processor::SignedTransfer, ProgramError>(
            ProgramError::SignatureVerificationFailed,
        ),
{
}

/// Anti-spoofing, on a signature of the registry: where the recovery
/// instruction that precedes the instruction holds an offsets record that
/// points at another instruction, the signature is never accepted.
pub proof fn lemma_spoofed_signature_rejected(
    valid_signer: Account,
    signer_group: Account,
    sysvar: Account,
    signature: crate::eth_registry::instruction::SignatureDataView,
)
    requires
        preceding_companion(sysvar) matches Ok((position, data)) && !(position <= u8::MAX
            && offsets_of(data).refers_to(position as u8)),
    ensures
        registry::validate_signature_outcome(valid_signer, signer_group, sysvar, signature) is Err,
{
}

/// Anti-spoofing, on a threshold: where the recovery instruction of one
/// attestor holds an offsets record that points at another instruction, the
/// operation is never authorized.
pub proof fn lemma_spoofed_attestation_rejected(
    sysvar: Account,
    group: Seq<u8>,
    required: nat,
    attestors: Seq<AttestorView>,
    message: Seq<u8>,
    new_operator: Option<Seq<u8>>,
    spoofed: int,
)
    requires
        0 <= spoofed < attestors.len(),
        companion_at(sysvar, attestors[spoofed].position as int) matches Ok(data) && !(
        attestors[spoofed].position <= u8::MAX && offsets_of(data).refers_to(
            attestors[spoofed].position as u8,
        )),
    ensures
        threshold_outcome(sysvar, group, required, attestors, message, new_operator) is Err,
{
    assert(attestation_outcome(sysvar, attestors[spoofed], message) is Err);
    lemma_one_failure_fails_all(sysvar, attestors, message, 0, spoofed);
}

/// One attestation that fails makes the attestations fail.
pub proof fn lemma_one_failure_fails_all(
    sysvar: Account,
    attestors: Seq<AttestorView>,
    message: Seq<u8>,
    from: int,
    failing: int,
)
    requires
        0 <= from <= failing < attestors.len(),
        attestation_outcome(sysvar, attestors[failing], message) is Err,
    ensures
        attestations_outcome(sysvar, attestors, message, from) is Err,
    decreases failing - from,
{
    if from < failing {
        lemma_one_failure_fails_all(sysvar, attestors, message, from + 1, failing);
    }
}

/// Round-trip, create: the record that the owner's `InitValidSigner`
/// stores is read back as an initialized signer with exactly the given
/// address and group.
pub proof fn lemma_created_signer_reads_back(
    valid_signer: Account,
    signer_group: Account,
    owner: Account,
    eth_address: Seq<u8>,
)
    requires
        eth_address.len() == 20,
        registry::init_valid_signer_outcome(valid_signer, signer_group, owner, eth_address) is Ok,
    ensures
        ({
            let stored = registry::init_valid_signer_outcome(
                valid_signer,
                signer_group,
                owner,
                eth_address,
            ).unwrap();
            &&& ValidSigner::decode(stored.encode()) == Ok::<
                crate::eth_registry::state::ValidSignerView,
                ProgramError,
            >(stored)
            &&& stored.initialized()
            &&& stored.eth_address == eth_address
            &&& stored.signer_group == signer_group.key@
        }),
{
    let stored = registry::init_valid_signer_outcome(
        valid_signer,
        signer_group,
        owner,
        eth_address,
    ).unwrap();
    ValidSigner::lemma_decode_encode(stored);
}

/// Round-trip, clear: the record that the owner's `ClearValidSigner` stores
/// is read back as a signer that is not initialized.
pub proof fn lemma_cleared_signer_reads_back(
    valid_signer: Account,
    signer_group: Account,
    owner: Account,
)
    requires
        registry::clear_valid_signer_outcome(valid_signer, signer_group, owner) is Ok,
    ensures
        ({
            let stored = registry::clear_valid_signer_outcome(
                valid_signer,
                signer_group,
                owner,
            ).unwrap();
            &&& ValidSigner::decode(stored.encode()) == Ok::<
                crate::eth_registry::state::ValidSignerView,
                ProgramError,
            >(stored)
            &&& !stored.initialized()
        }),
{
    let stored = registry::clear_valid_signer_outcome(valid_signer, signer_group, owner).unwrap();
    ValidSigner::lemma_decode_encode(stored);
}

/// A cleared signer record is not initialized again: neither the owner nor
/// three attesting signers can take its account for a new signer.
pub proof fn lemma_cleared_signer_stays_cleared(
    cleared: Account,
    group: Seq<u8>,
    eth_address: Seq<u8>,
)
    requires
        ValidSigner::decode(cleared.data@) matches Ok(record) && record.version
            == crate::eth_registry::state::CLEARED_VERSION,
    ensures
        registry::fresh_signer(cleared, group, eth_address) == Err::<
            crate::eth_registry::state::ValidSignerView,
            ProgramError,
        >(ProgramError::AlreadyInitialized),
{
}

/// Round-trip, senders: the record that `CreateSender` stores is read back
/// as an initialized sender with exactly the given address, operator and
/// reward manager, and the record that `DeleteSender` stores is read back as
/// a sender that is not initialized.
pub proof fn lemma_sender_reads_back(
    program_id: Seq<u8>,
    reward_manager: Account,
    manager: Account,
    authority: Account,
    sender: Account,
    eth_address: Seq<u8>,
    operator: Seq<u8>,
)
    requires
        eth_address.len() == 20,
        operator.len() == 20,
    ensures
        rewards::create_sender_outcome(
            program_id,
            reward_manager,
            manager,
            authority,
            sender,
            eth_address,
            operator,
        ) matches Ok(creation) ==> {
            &&& SenderAccount::decode(creation.record.encode()) == Ok::<
                crate::reward_manager::state::SenderAccountView,
                ProgramError,
            >(creation.record)
            &&& creation.record.initialized()
            &&& creation.record.eth_address == eth_address
            &&& creation.record.operator == operator
            &&& creation.record.reward_manager == reward_manager.key@
        },
        rewards::delete_sender_outcome(reward_manager, manager, sender) matches Ok(deletion) ==> {
            &&& SenderAccount::decode(deletion.record.encode()) == Ok::<
                crate::reward_manager::state::SenderAccountView,
                ProgramError,
            >(deletion.record)
            &&& !deletion.record.initialized()
            &&& deletion.refund == sender.lamports
        },
{
    if let Ok(creation) = rewards::create_sender_outcome(
        program_id,
        reward_manager,
        manager,
        authority,
        sender,
        eth_address,
        operator,
    ) {
        SenderAccount::lemma_decode_encode(creation.record);
    }
    if let Ok(deletion) = rewards::delete_sender_outcome(reward_manager, manager, sender) {
        SenderAccount::lemma_decode_encode(deletion.record);
    }
}

/// One-way latch: once the disabled group was stored, every instruction that
/// the owner gates fails with `AuthorizationError`, whoever signs, and the
/// group cannot be created anew.
pub proof fn lemma_disabled_owner_stays_disabled(
    signer_group: Account,
    owner: Account,
    stored_group: Account,
    any_owner: Account,
    any_signer: Account,
    eth_address: Seq<u8>,
)
    requires
        registry::disable_outcome(signer_group, owner) is Ok,
        stored_group.data@ == registry::disable_outcome(signer_group, owner).unwrap().encode(),
    ensures
        SignerGroup::decode(stored_group.data@) matches Ok(group) && group.initialized()
            && !group.owner_enabled,
        registry::init_valid_signer_outcome(any_signer, stored_group, any_owner, eth_address)
            == Err::<crate::eth_registry::state::ValidSignerView, ProgramError>(
            ProgramError::AuthorizationError,
        ),
        registry::clear_valid_signer_outcome(any_signer, stored_group, any_owner) == Err::<
            crate::eth_registry::state::ValidSignerView,
            ProgramError,
        >(ProgramError::AuthorizationError),
        registry::disable_outcome(stored_group, any_owner) == Err::<SignerGroupView, ProgramError>(
            ProgramError::AuthorizationError,
        ),
        registry::init_signer_group_outcome(stored_group, any_owner) == Err::<
            SignerGroupView,
            ProgramError,
        >(ProgramError::AlreadyInitialized),
{
    let disabled = registry::disable_outcome(signer_group, owner).unwrap();
    SignerGroup::lemma_decode_encode(disabled);
}

/// One-way latch, the public path: what three attesting signers may add or
/// remove does not depend on whether the owner is enabled.
pub proof fn lemma_public_path_ignores_latch(
    signers: Seq<Account>,
    positions: Seq<u16>,
    enabled_group: Account,
    disabled_group: Account,
    target: Account,
    sysvar: Account,
    declared: Seq<Seq<u8>>,
    eth_address: Seq<u8>,
)
    requires
        enabled_group.key == disabled_group.key,
        SignerGroup::decode(enabled_group.data@) matches Ok(enabled) && SignerGroup::decode(
            disabled_group.data@,
        ) matches Ok(disabled) && enabled.version == disabled.version,
    ensures
        registry::add_signer_outcome(
            signers,
            positions,
            enabled_group,
            target,
            sysvar,
            declared,
            eth_address,
        ) == registry::add_signer_outcome(
            signers,
            positions,
            disabled_group,
            target,
            sysvar,
            declared,
            eth_address,
        ),
        registry::clear_signer_outcome(
            signers,
            positions,
            enabled_group,
            target,
            sysvar,
            declared,
        ) == registry::clear_signer_outcome(
            signers,
            positions,
            disabled_group,
            target,
            sysvar,
            declared,
        ),
{
}

} // verus!
