//! Program state processor.
//!
//! Every function decides one instruction from the accounts it declares and
//! returns the record to store, or the failure that aborts the transaction.
//! Nothing is stored on failure. Creating a sender's account, and refunding
//! the balance of a deleted one, is left to the caller.

use crate::account::Account;
use crate::attestation::{
    add_tag, attestor_views, canonical_message, delete_tag, evaluate_threshold, spec_add_tag,
    spec_canonical_message, spec_delete_tag, threshold_outcome, Attestor, AttestorView,
    AuthorizedIdentityView,
};
use crate::codec::slices_equal;
use crate::error::{yields, ProgramError};
use crate::pda::{spec_base_address, spec_derived_pair};
use crate::reward_manager::state::{
    RewardManager, RewardManagerView, SenderAccount, SenderAccountView, CLEARED_VERSION,
    INITIALIZED_VERSION,
};
use crate::reward_manager::utils::{
    find_derived_pair, find_program_address, sender_seed, spec_sender_seed_prefix,
};
use vstd::prelude::*;

verus! {

/// Whether `manager` may add and remove senders: the reward manager is
/// initialized, and `manager` is its manager and has signed.
pub open spec fn manager_authorized(reward_manager: RewardManagerView, manager: Account) -> bool {
    reward_manager.initialized() && reward_manager.manager == manager.key@ && manager.is_signer
}

/// The verdict on `InitRewardManager`: a reward manager is created once, and
/// the declared authority must be the derived one.
pub open spec fn init_outcome(
    program_id: Seq<u8>,
    reward_manager: Account,
    token_account: Account,
    manager: Account,
    authority: Account,
    min_votes: u8,
) -> Result<RewardManagerView, ProgramError> {
    match RewardManager::decode(reward_manager.data@) {
        Err(e) => Err(e),
        Ok(record) => if record.initialized() {
            Err(ProgramError::AlreadyInitialized)
        } else {
            match spec_base_address(program_id, reward_manager.key@) {
                None => Err(ProgramError::InvalidSeeds),
                Some((derived, _)) => if derived != authority.key@ {
                    Err(ProgramError::BindingError)
                } else {
                    Ok(
                        RewardManagerView {
                            version: INITIALIZED_VERSION,
                            token_account: token_account.key@,
                            manager: manager.key@,
                            min_votes,
                        },
                    )
                },
            }
        },
    }
}

/// The verdict on `ChangeManagerAccount`: only the manager hands over.
pub open spec fn change_manager_outcome(
    reward_manager: Account,
    current_manager: Account,
    new_manager: Account,
) -> Result<RewardManagerView, ProgramError> {
    match RewardManager::decode(reward_manager.data@) {
        Err(e) => Err(e),
        Ok(record) => if !manager_authorized(record, current_manager) {
            Err(ProgramError::AuthorizationError)
        } else {
            Ok(
                RewardManagerView {
                    version: record.version,
                    token_account: record.token_account,
                    manager: new_manager.key@,
                    min_votes: record.min_votes,
                },
            )
        },
    }
}

/// A sender to create: the record to store in the account that the caller
/// creates at the derived address.
#[derive(Clone, Copy, Debug)]
pub struct SenderCreation {
    /// The record to store.
    pub record: SenderAccount,
    /// The bump seed of the sender account's address.
    pub bump_seed: u8,
}

/// A sender to create, as a mathematical value.
pub struct SenderCreationView {
    pub record: SenderAccountView,
    pub bump_seed: u8,
}

impl View for SenderCreation {
    type V = SenderCreationView;

    open spec fn view(&self) -> SenderCreationView {
        SenderCreationView { record: self.record@, bump_seed: self.bump_seed }
    }
}

/// A sender to delete: the record to store, and the balance to refund.
#[derive(Clone, Copy, Debug)]
pub struct SenderDeletion {
    /// The record to store.
    pub record: SenderAccount,
    /// The balance of the sender's account, to move to the refunded account.
    pub refund: u64,
}

/// A sender to delete, as a mathematical value.
pub struct SenderDeletionView {
    pub record: SenderAccountView,
    pub refund: u64,
}

impl View for SenderDeletion {
    type V = SenderDeletionView;

    open spec fn view(&self) -> SenderDeletionView {
        SenderDeletionView { record: self.record@, refund: self.refund }
    }
}

/// The record that the sender account of an external address takes: the
/// declared authority and account must be the derived ones, and the account
/// must not exist yet. An account with a balance exists and fails with
/// `AlreadyInitialized`.
pub open spec fn fresh_sender(
    program_id: Seq<u8>,
    reward_manager: Seq<u8>,
    authority: Account,
    sender: Account,
    eth_address: Seq<u8>,
    operator: Seq<u8>,
) -> Result<SenderCreationView, ProgramError> {
    match spec_derived_pair(program_id, reward_manager, spec_sender_seed_prefix() + eth_address) {
        None => Err(ProgramError::InvalidSeeds),
        Some((base, derived, bump)) => if base != authority.key@ || derived != sender.key@ {
            Err(ProgramError::BindingError)
        } else if sender.lamports != 0 {
            Err(ProgramError::AlreadyInitialized)
        } else {
            Ok(
                SenderCreationView {
                    record: SenderAccountView {
                        version: INITIALIZED_VERSION,
                        reward_manager,
                        eth_address,
                        operator,
                    },
                    bump_seed: bump,
                },
            )
        },
    }
}

/// The record that an initialized sender of a reward manager is deleted to,
/// with the balance to refund.
pub open spec fn deleted_sender(sender: Account, reward_manager: Seq<u8>) -> Result<
    SenderDeletionView,
    ProgramError,
> {
    match SenderAccount::decode(sender.data@) {
        Err(e) => Err(e),
        Ok(record) => if !record.initialized() {
            Err(ProgramError::UninitializedAccount)
        } else if record.reward_manager != reward_manager {
            Err(ProgramError::AuthorizationError)
        } else {
            Ok(SenderDeletionView { record: record.cleared(), refund: sender.lamports })
        },
    }
}

/// The verdict on `CreateSender`: the manager must be authorized.
pub open spec fn create_sender_outcome(
    program_id: Seq<u8>,
    reward_manager: Account,
    manager: Account,
    authority: Account,
    sender: Account,
    eth_address: Seq<u8>,
    operator: Seq<u8>,
) -> Result<SenderCreationView, ProgramError> {
    match RewardManager::decode(reward_manager.data@) {
        Err(e) => Err(e),
        Ok(record) => if !manager_authorized(record, manager) {
            Err(ProgramError::AuthorizationError)
        } else {
            fresh_sender(program_id, reward_manager.key@, authority, sender, eth_address, operator)
        },
    }
}

/// The verdict on `DeleteSender`: the manager must be authorized.
pub open spec fn delete_sender_outcome(reward_manager: Account, manager: Account, sender: Account)
    -> Result<SenderDeletionView, ProgramError> {
    match RewardManager::decode(reward_manager.data@) {
        Err(e) => Err(e),
        Ok(record) => if !manager_authorized(record, manager) {
            Err(ProgramError::AuthorizationError)
        } else {
            deleted_sender(sender, reward_manager.key@)
        },
    }
}

/// A sender account as an attestor whose recovery instruction stands at
/// `position`.
pub open spec fn sender_attestor(sender: Account, position: u16) -> AttestorView
    recommends
        SenderAccount::decode(sender.data@) is Ok,
{
    let record = SenderAccount::decode(sender.data@).unwrap();
    AttestorView {
        account: sender.key@,
        identity: AuthorizedIdentityView {
            initialized: record.initialized(),
            group: record.reward_manager,
            eth_address: record.eth_address,
            operator: Some(record.operator),
        },
        position,
    }
}

/// The attestors that sender accounts and positions stand for: enough
/// senders, one position for each, and every record readable.
pub open spec fn sender_attestors(signers: Seq<Account>, positions: Seq<u16>, required: u8)
    -> Result<Seq<AttestorView>, ProgramError> {
    if signers.len() < required {
        Err(ProgramError::NotEnoughSigners)
    } else if signers.len() != positions.len() {
        Err(ProgramError::NotEnoughAccountKeys)
    } else if exists|i: int|
        0 <= i < signers.len() && #[trigger] SenderAccount::decode(signers[i].data@) is Err {
        Err(ProgramError::DecodeError)
    } else {
        Ok(Seq::new(signers.len(), |i: int| sender_attestor(signers[i], positions[i])))
    }
}

/// Whether enough senders of the initialized reward manager attest the
/// message that `tag` and `target` make, each with the recovery instruction
/// at its position.
pub open spec fn attested(
    reward_manager: Account,
    sysvar: Account,
    signers: Seq<Account>,
    positions: Seq<u16>,
    tag: Seq<u8>,
    target: Seq<u8>,
    new_operator: Option<Seq<u8>>,
) -> Result<(), ProgramError> {
    match RewardManager::decode(reward_manager.data@) {
        Err(e) => Err(e),
        Ok(record) => if !record.initialized() {
            Err(ProgramError::UninitializedAccount)
        } else {
            match sender_attestors(signers, positions, record.min_votes) {
                Err(e) => Err(e),
                Ok(attestors) => threshold_outcome(
                    sysvar,
                    reward_manager.key@,
                    record.min_votes as nat,
                    attestors,
                    spec_canonical_message(tag, reward_manager.key@, target),
                    new_operator,
                ),
            }
        },
    }
}

/// The verdict on `CreateSenderPublic`: enough senders attest the addition
/// of `eth_address`, whose operator none of them shares, and the account
/// does not exist yet.
pub open spec fn create_sender_public_outcome(
    program_id: Seq<u8>,
    reward_manager: Account,
    authority: Account,
    new_sender: Account,
    sysvar: Account,
    signers: Seq<Account>,
    positions: Seq<u16>,
    eth_address: Seq<u8>,
    operator: Seq<u8>,
) -> Result<SenderCreationView, ProgramError> {
    match attested(
        reward_manager,
        sysvar,
        signers,
        positions,
        spec_add_tag(),
        eth_address,
        Some(operator),
    ) {
        Err(e) => Err(e),
        Ok(()) => fresh_sender(
            program_id,
            reward_manager.key@,
            authority,
            new_sender,
            eth_address,
            operator,
        ),
    }
}

/// The verdict on `DeleteSenderPublic`: the account holds an initialized
/// sender of the reward manager, and enough senders attest its removal.
pub open spec fn delete_sender_public_outcome(
    reward_manager: Account,
    sender: Account,
    sysvar: Account,
    signers: Seq<Account>,
    positions: Seq<u16>,
) -> Result<SenderDeletionView, ProgramError> {
    match deleted_sender(sender, reward_manager.key@) {
        Err(e) => Err(e),
        Ok(deletion) => match attested(
            reward_manager,
            sysvar,
            signers,
            positions,
            spec_delete_tag(),
            deletion.record.eth_address,
            None,
        ) {
            Err(e) => Err(e),
            Ok(()) => Ok(deletion),
        },
    }
}

/// Reads the reward manager and checks that `manager` is authorized.
pub fn authorize_manager(reward_manager: &Account, manager: &Account) -> (r: Result<
    RewardManager,
    ProgramError,
>)
    ensures
        match RewardManager::decode(reward_manager.data@) {
            Err(e) => r matches Err(x) && x == e,
            Ok(record) => if manager_authorized(record, *manager) {
                r matches Ok(found) && found@ == record
            } else {
                r matches Err(x) && x == ProgramError::AuthorizationError
            },
        },
{
    let record = match RewardManager::try_from_slice(reward_manager.data.as_slice()) {
        Ok(found) => found,
        Err(e) => { return Err(e); },
    };
    if !record.is_initialized() || !slices_equal(record.manager.as_slice(), manager.key.as_slice())
        || !manager.is_signer {
        return Err(ProgramError::AuthorizationError);
    }
    Ok(record)
}

/// Decides the record of a new sender of the reward manager at
/// `reward_manager`.
pub fn take_fresh_sender(
    program_id: &[u8; 32],
    reward_manager: &[u8; 32],
    authority: &Account,
    sender: &Account,
    eth_address: [u8; 20],
    operator: [u8; 20],
) -> (r: Result<SenderCreation, ProgramError>)
    ensures
        yields(
            r,
            fresh_sender(
                program_id@,
                reward_manager@,
                *authority,
                *sender,
                eth_address@,
                operator@,
            ),
        ),
{
    let seed = sender_seed(&eth_address);
    let (base, derived, bump_seed) = match find_derived_pair(
        program_id,
        reward_manager,
        seed.as_slice(),
    ) {
        Some(found) => found,
        None => { return Err(ProgramError::InvalidSeeds); },
    };
    if !slices_equal(base.as_slice(), authority.key.as_slice()) || !slices_equal(
        derived.as_slice(),
        sender.key.as_slice(),
    ) {
        return Err(ProgramError::BindingError);
    }
    if sender.lamports != 0 {
        return Err(ProgramError::AlreadyInitialized);
    }
    Ok(
        SenderCreation {
            record: SenderAccount::new(*reward_manager, eth_address, operator),
            bump_seed,
        },
    )
}

/// Decides the record that an initialized sender of the reward manager at
/// `reward_manager` is deleted to.
pub fn take_deleted_sender(sender: &Account, reward_manager: &[u8; 32]) -> (r: Result<
    SenderDeletion,
    ProgramError,
>)
    ensures
        yields(r, deleted_sender(*sender, reward_manager@)),
{
    let record = match SenderAccount::try_from_slice(sender.data.as_slice()) {
        Ok(found) => found,
        Err(e) => { return Err(e); },
    };
    if !record.is_initialized() {
        return Err(ProgramError::UninitializedAccount);
    }
    if !slices_equal(record.reward_manager.as_slice(), reward_manager.as_slice()) {
        return Err(ProgramError::AuthorizationError);
    }
    Ok(
        SenderDeletion {
            record: SenderAccount {
                version: CLEARED_VERSION,
                reward_manager: record.reward_manager,
                eth_address: record.eth_address,
                operator: record.operator,
            },
            refund: sender.lamports,
        },
    )
}

/// Reads sender accounts as attestors, one position for each sender.
pub fn read_attestors(signers: &[Account], positions: &[u16], required: u8) -> (r: Result<
    Vec<Attestor>,
    ProgramError,
>)
    ensures
        match sender_attestors(signers@, positions@, required) {
            Err(e) => r matches Err(x) && x == e,
            Ok(views) => r matches Ok(attestors) && attestor_views(attestors@) == views,
        },
{
    if signers.len() < required as usize {
        return Err(ProgramError::NotEnoughSigners);
    }
    if signers.len() != positions.len() {
        return Err(ProgramError::NotEnoughAccountKeys);
    }
    let n = signers.len();
    let mut attestors: Vec<Attestor> = Vec::new();
    let mut i: usize = 0;
    while i < n
        invariant
            n == signers@.len(),
            n == positions@.len(),
            n >= required,
            i <= n,
            attestors@.len() == i,
            forall|k: int| 0 <= k < i ==> SenderAccount::decode(signers@[k].data@) is Ok,
            forall|k: int|
                0 <= k < i ==> (#[trigger] attestors@[k])@ == sender_attestor(
                    signers@[k],
                    positions@[k],
                ),
        decreases n - i,
    {
        let record = match SenderAccount::try_from_slice(signers[i].data.as_slice()) {
            Ok(found) => found,
            Err(_) => {
                assert(SenderAccount::decode(signers@[i as int].data@) is Err);
                return Err(ProgramError::DecodeError);
            },
        };
        attestors.push(
            Attestor { account: signers[i].key, identity: record.identity(), position: positions[i] },
        );
        i += 1;
    }
    proof {
        assert(attestor_views(attestors@) =~= sender_attestors(
            signers@,
            positions@,
            required,
        ).unwrap());
    }
    Ok(attestors)
}

/// Decides whether enough senders of the reward manager attest the message
/// that `tag` and `target` make.
pub fn check_attested(
    reward_manager: &Account,
    sysvar: &Account,
    signers: &[Account],
    positions: &[u16],
    tag: &[u8],
    target: &[u8],
    new_operator: &Option<[u8; 20]>,
) -> (r: Result<(), ProgramError>)
    ensures
        r == attested(
            *reward_manager,
            *sysvar,
            signers@,
            positions@,
            tag@,
            target@,
            crate::attestation::tag_view(*new_operator),
        ),
{
    let record = match RewardManager::try_from_slice(reward_manager.data.as_slice()) {
        Ok(found) => found,
        Err(e) => { return Err(e); },
    };
    if !record.is_initialized() {
        return Err(ProgramError::UninitializedAccount);
    }
    let attestors = match read_attestors(signers, positions, record.min_votes) {
        Ok(a) => a,
        Err(e) => { return Err(e); },
    };
    let message = canonical_message(tag, &reward_manager.key, target);
    evaluate_threshold(
        sysvar,
        &reward_manager.key,
        record.min_votes,
        &attestors,
        message.as_slice(),
        new_operator,
    )
}

/// Program state handler.
pub struct Processor;

impl Processor {
    /// Initializes a reward manager.
    pub fn process_init_instruction(
        program_id: &[u8; 32],
        reward_manager: &Account,
        token_account: &Account,
        manager: &Account,
        authority: &Account,
        min_votes: u8,
    ) -> (r: Result<RewardManager, ProgramError>)
        ensures
            yields(
                r,
                init_outcome(
                    program_id@,
                    *reward_manager,
                    *token_account,
                    *manager,
                    *authority,
                    min_votes,
                ),
            ),
    {
        let record = match RewardManager::try_from_slice(reward_manager.data.as_slice()) {
            Ok(found) => found,
            Err(e) => { return Err(e); },
        };
        if record.is_initialized() {
            return Err(ProgramError::AlreadyInitialized);
        }
        let derived = match find_program_address(program_id, &reward_manager.key) {
            Some((address, _)) => address,
            None => { return Err(ProgramError::InvalidSeeds); },
        };
        if !slices_equal(derived.as_slice(), authority.key.as_slice()) {
            return Err(ProgramError::BindingError);
        }
        Ok(RewardManager::new(token_account.key, manager.key, min_votes))
    }

    /// Hands a reward manager over to a new manager.
    pub fn process_change_manager_authority(
        reward_manager: &Account,
        current_manager: &Account,
        new_manager: &Account,
    ) -> (r: Result<RewardManager, ProgramError>)
        ensures
            yields(r, change_manager_outcome(*reward_manager, *current_manager, *new_manager)),
    {
        let record = match authorize_manager(reward_manager, current_manager) {
            Ok(found) => found,
            Err(e) => { return Err(e); },
        };
        Ok(
            RewardManager {
                version: record.version,
                token_account: record.token_account,
                manager: new_manager.key,
                min_votes: record.min_votes,
            },
        )
    }

    /// Adds a sender on the manager's word.
    pub fn process_create_sender(
        program_id: &[u8; 32],
        reward_manager: &Account,
        manager: &Account,
        authority: &Account,
        sender: &Account,
        eth_address: [u8; 20],
        operator: [u8; 20],
    ) -> (r: Result<SenderCreation, ProgramError>)
        ensures
            yields(
                r,
                create_sender_outcome(
                    program_id@,
                    *reward_manager,
                    *manager,
                    *authority,
                    *sender,
                    eth_address@,
                    operator@,
                ),
            ),
    {
        match authorize_manager(reward_manager, manager) {
            Ok(_) => {},
            Err(e) => { return Err(e); },
        }
        take_fresh_sender(program_id, &reward_manager.key, authority, sender, eth_address, operator)
    }

    /// Removes a sender on the manager's word.
    pub fn process_delete_sender(reward_manager: &Account, manager: &Account, sender: &Account)
        -> (r: Result<SenderDeletion, ProgramError>)
        ensures
            yields(r, delete_sender_outcome(*reward_manager, *manager, *sender)),
    {
        match authorize_manager(reward_manager, manager) {
            Ok(_) => {},
            Err(e) => { return Err(e); },
        }
        take_deleted_sender(sender, &reward_manager.key)
    }

    /// Adds a sender on the word of enough attesting senders.
    pub fn process_create_sender_public(
        program_id: &[u8; 32],
        reward_manager: &Account,
        authority: &Account,
        new_sender: &Account,
        sysvar: &Account,
        signers: &[Account],
        positions: &[u16],
        eth_address: [u8; 20],
        operator: [u8; 20],
    ) -> (r: Result<SenderCreation, ProgramError>)
        ensures
            yields(
                r,
                create_sender_public_outcome(
                    program_id@,
                    *reward_manager,
                    *authority,
                    *new_sender,
                    *sysvar,
                    signers@,
                    positions@,
                    eth_address@,
                    operator@,
                ),
            ),
    {
        let tag = add_tag();
        match check_attested(
            reward_manager,
            sysvar,
            signers,
            positions,
            tag.as_slice(),
            eth_address.as_slice(),
            &Some(operator),
        ) {
            Ok(()) => {},
            Err(e) => { return Err(e); },
        }
        take_fresh_sender(
            program_id,
            &reward_manager.key,
            authority,
            new_sender,
            eth_address,
            operator,
        )
    }

    /// Removes a sender on the word of enough attesting senders.
    pub fn process_delete_sender_public(
        reward_manager: &Account,
        sender: &Account,
        sysvar: &Account,
        signers: &[Account],
        positions: &[u16],
    ) -> (r: Result<SenderDeletion, ProgramError>)
        ensures
            yields(
                r,
                delete_sender_public_outcome(
                    *reward_manager,
                    *sender,
                    *sysvar,
                    signers@,
                    positions@,
                ),
            ),
    {
        let deletion = match take_deleted_sender(sender, &reward_manager.key) {
            Ok(d) => d,
            Err(e) => { return Err(e); },
        };
        let tag = delete_tag();
        match check_attested(
            reward_manager,
            sysvar,
            signers,
            positions,
            tag.as_slice(),
            deletion.record.eth_address.as_slice(),
            &None,
        ) {
            Ok(()) => {},
            Err(e) => { return Err(e); },
        }
        Ok(deletion)
    }
}

} // verus!
