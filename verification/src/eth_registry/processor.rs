//! Program state processor.
//!
//! Every function decides one instruction from the accounts it declares and
//! returns the record to store, or the failure that aborts the transaction.
//! Nothing is stored on failure.

use crate::account::Account;
use crate::attestation::{
    add_tag, attestor_views, bind_signer, bound_message, canonical_message, delete_tag,
    evaluate_threshold, spec_add_tag, spec_canonical_message, spec_delete_tag, threshold_outcome,
    Attestor, AttestorView, AuthorizedIdentityView,
};
use crate::codec::slices_equal;
use crate::error::{yields, ProgramError};
use crate::eth_registry::instruction::{
    ColivingInstruction, ColivingInstructionView, SignatureData, SignatureDataView,
};
use crate::eth_registry::state::{
    SignerGroup, SignerGroupView, ValidSigner, ValidSignerView, CLEARED_VERSION,
    INITIALIZED_VERSION, UNINITIALIZED_VERSION,
};
use crate::locator::{locate_preceding, preceding_companion};
use vstd::prelude::*;

verus! {

/// The number of signers that must attest an instruction of the registry.
pub const REQUIRED_SIGNERS: u8 = 3;

/// Whether `owner` may add and remove signers of the group: the group is
/// initialized, `owner` is its owner and has signed, and the owner has not
/// been disabled.
pub open spec fn owner_authorized(group: SignerGroupView, owner: Account) -> bool {
    group.initialized() && group.owner == owner.key@ && owner.is_signer && group.owner_enabled
}

/// The verdict on `InitSignerGroup`: a group is created once.
pub open spec fn init_signer_group_outcome(signer_group: Account, owner: Account) -> Result<
    SignerGroupView,
    ProgramError,
> {
    match SignerGroup::decode(signer_group.data@) {
        Err(e) => Err(e),
        Ok(group) => if group.initialized() {
            Err(ProgramError::AlreadyInitialized)
        } else {
            Ok(
                SignerGroupView {
                    version: INITIALIZED_VERSION,
                    owner: owner.key@,
                    owner_enabled: true,
                },
            )
        },
    }
}

/// The verdict on `InitValidSigner`: the owner must be authorized, and the
/// record must never have been initialized.
pub open spec fn init_valid_signer_outcome(
    valid_signer: Account,
    signer_group: Account,
    owner: Account,
    eth_address: Seq<u8>,
) -> Result<ValidSignerView, ProgramError> {
    match SignerGroup::decode(signer_group.data@) {
        Err(e) => Err(e),
        Ok(group) => if !owner_authorized(group, owner) {
            Err(ProgramError::AuthorizationError)
        } else {
            fresh_signer(valid_signer, signer_group.key@, eth_address)
        },
    }
}

/// The record that a never initialized signer account takes for a new
/// member of `group`. An account that holds a signer, or held one that was
/// cleared, is taken and fails with `AlreadyInitialized`.
pub open spec fn fresh_signer(valid_signer: Account, group: Seq<u8>, eth_address: Seq<u8>)
    -> Result<ValidSignerView, ProgramError> {
    match ValidSigner::decode(valid_signer.data@) {
        Err(e) => Err(e),
        Ok(slot) => if slot.version != UNINITIALIZED_VERSION {
            Err(ProgramError::AlreadyInitialized)
        } else {
            Ok(
                ValidSignerView {
                    version: INITIALIZED_VERSION,
                    signer_group: group,
                    eth_address,
                },
            )
        },
    }
}

/// The record that an initialized signer of `group` is cleared to.
pub open spec fn cleared_signer(valid_signer: Account, group: Seq<u8>) -> Result<
    ValidSignerView,
    ProgramError,
> {
    match ValidSigner::decode(valid_signer.data@) {
        Err(e) => Err(e),
        Ok(slot) => if !slot.initialized() {
            Err(ProgramError::UninitializedAccount)
        } else if slot.signer_group != group {
            Err(ProgramError::AuthorizationError)
        } else {
            Ok(slot.cleared())
        },
    }
}

/// The verdict on `ClearValidSigner`: the owner must be authorized, and the
/// record must be an initialized signer of the group.
pub open spec fn clear_valid_signer_outcome(
    valid_signer: Account,
    signer_group: Account,
    owner: Account,
) -> Result<ValidSignerView, ProgramError> {
    match SignerGroup::decode(signer_group.data@) {
        Err(e) => Err(e),
        Ok(group) => if !owner_authorized(group, owner) {
            Err(ProgramError::AuthorizationError)
        } else {
            cleared_signer(valid_signer, signer_group.key@)
        },
    }
}

/// The verdict on `DisableSignerGroupOwner`: only the authorized owner
/// disables itself, and the group keeps everything else.
pub open spec fn disable_outcome(signer_group: Account, owner: Account) -> Result<
    SignerGroupView,
    ProgramError,
> {
    match SignerGroup::decode(signer_group.data@) {
        Err(e) => Err(e),
        Ok(group) => if !owner_authorized(group, owner) {
            Err(ProgramError::AuthorizationError)
        } else {
            Ok(
                SignerGroupView {
                    version: group.version,
                    owner: group.owner,
                    owner_enabled: false,
                },
            )
        },
    }
}

/// The verdict on `ValidateSignature`: the signer must be an initialized
/// member of the initialized group, and the recovery instruction that
/// precedes the instruction must be bound to the signer's address and sign
/// the declared message.
pub open spec fn validate_signature_outcome(
    valid_signer: Account,
    signer_group: Account,
    sysvar: Account,
    signature: SignatureDataView,
) -> Result<(), ProgramError> {
    match SignerGroup::decode(signer_group.data@) {
        Err(e) => Err(e),
        Ok(group) => match ValidSigner::decode(valid_signer.data@) {
            Err(e) => Err(e),
            Ok(signer) => if !group.initialized() || !signer.initialized() || signer.signer_group
                != signer_group.key@ {
                Err(ProgramError::AuthorizationError)
            } else {
                match preceding_companion(sysvar) {
                    Err(e) => Err(e),
                    Ok((position, data)) => match bound_message(
                        data,
                        position as int,
                        signer.eth_address,
                    ) {
                        Err(e) => Err(e),
                        Ok(signed) => if signed == signature.message {
                            Ok(())
                        } else {
                            Err(ProgramError::SignatureVerificationFailed)
                        },
                    },
                }
            },
        },
    }
}

/// A signer account as an attestor whose recovery instruction stands at
/// `position`.
pub open spec fn signer_attestor(signer: Account, position: u16) -> AttestorView
    recommends
        ValidSigner::decode(signer.data@) is Ok,
{
    let record = ValidSigner::decode(signer.data@).unwrap();
    AttestorView {
        account: signer.key@,
        identity: AuthorizedIdentityView {
            initialized: record.initialized(),
            group: record.signer_group,
            eth_address: record.eth_address,
            operator: None,
        },
        position,
    }
}

/// The attestors that signer accounts and positions stand for: enough
/// signers, one position for each, and every record readable.
pub open spec fn signer_attestors(signers: Seq<Account>, positions: Seq<u16>) -> Result<
    Seq<AttestorView>,
    ProgramError,
> {
    if signers.len() < REQUIRED_SIGNERS {
        Err(ProgramError::NotEnoughSigners)
    } else if signers.len() != positions.len() {
        Err(ProgramError::NotEnoughAccountKeys)
    } else if exists|i: int|
        0 <= i < signers.len() && #[trigger] ValidSigner::decode(signers[i].data@) is Err {
        Err(ProgramError::DecodeError)
    } else {
        Ok(Seq::new(signers.len(), |i: int| signer_attestor(signers[i], positions[i])))
    }
}

/// Whether every declared signature carries exactly `message`.
pub open spec fn all_declare(declared: Seq<Seq<u8>>, message: Seq<u8>) -> bool {
    forall|i: int| 0 <= i < declared.len() ==> #[trigger] declared[i] == message
}

/// The messages that declared signatures carry.
pub open spec fn declared_messages(signatures: Seq<SignatureData>) -> Seq<Seq<u8>> {
    Seq::new(signatures.len(), |i: int| signatures[i].message@)
}

/// Whether three signers of the initialized group attest `message`, each
/// with the recovery instruction at its position, and every declared
/// signature carries that message.
pub open spec fn attested(
    signers: Seq<Account>,
    positions: Seq<u16>,
    signer_group: Account,
    sysvar: Account,
    declared: Seq<Seq<u8>>,
    message: Seq<u8>,
) -> Result<(), ProgramError> {
    match SignerGroup::decode(signer_group.data@) {
        Err(e) => Err(e),
        Ok(group) => if !group.initialized() {
            Err(ProgramError::UninitializedAccount)
        } else {
            match signer_attestors(signers, positions) {
                Err(e) => Err(e),
                Ok(attestors) => match threshold_outcome(
                    sysvar,
                    signer_group.key@,
                    REQUIRED_SIGNERS as nat,
                    attestors,
                    message,
                    None,
                ) {
                    Err(e) => Err(e),
                    Ok(()) => if all_declare(declared, message) {
                        Ok(())
                    } else {
                        Err(ProgramError::SignatureVerificationFailed)
                    },
                },
            }
        },
    }
}

/// The verdict on `ValidateMultipleSignaturesAddSigner`: three signers
/// attest the addition of `eth_address` to the group, and the record has
/// never been initialized.
pub open spec fn add_signer_outcome(
    signers: Seq<Account>,
    positions: Seq<u16>,
    signer_group: Account,
    new_valid_signer: Account,
    sysvar: Account,
    declared: Seq<Seq<u8>>,
    eth_address: Seq<u8>,
) -> Result<ValidSignerView, ProgramError> {
    match attested(
        signers,
        positions,
        signer_group,
        sysvar,
        declared,
        spec_canonical_message(spec_add_tag(), signer_group.key@, eth_address),
    ) {
        Err(e) => Err(e),
        Ok(()) => fresh_signer(new_valid_signer, signer_group.key@, eth_address),
    }
}

/// The verdict on `ValidateMultipleSignaturesClearValidSigner`: the record
/// is an initialized signer of the group, and three signers attest its
/// removal.
pub open spec fn clear_signer_outcome(
    signers: Seq<Account>,
    positions: Seq<u16>,
    signer_group: Account,
    old_valid_signer: Account,
    sysvar: Account,
    declared: Seq<Seq<u8>>,
) -> Result<ValidSignerView, ProgramError> {
    match cleared_signer(old_valid_signer, signer_group.key@) {
        Err(e) => Err(e),
        Ok(cleared) => match attested(
            signers,
            positions,
            signer_group,
            sysvar,
            declared,
            spec_canonical_message(spec_delete_tag(), signer_group.key@, cleared.eth_address),
        ) {
            Err(e) => Err(e),
            Ok(()) => Ok(cleared),
        },
    }
}

/// Reads the group and checks that `owner` is authorized.
pub fn authorize_owner(signer_group: &Account, owner: &Account) -> (r: Result<
    SignerGroup,
    ProgramError,
>)
    ensures
        match SignerGroup::decode(signer_group.data@) {
            Err(e) => r matches Err(x) && x == e,
            Ok(group) => if owner_authorized(group, *owner) {
                r matches Ok(g) && g@ == group
            } else {
                r matches Err(x) && x == ProgramError::AuthorizationError
            },
        },
{
    let group = match SignerGroup::try_from_slice(signer_group.data.as_slice()) {
        Ok(g) => g,
        Err(e) => { return Err(e); },
    };
    if !group.is_initialized() || !slices_equal(group.owner.as_slice(), owner.key.as_slice())
        || !owner.is_signer || !group.owner_enabled {
        return Err(ProgramError::AuthorizationError);
    }
    Ok(group)
}

/// Decides the record of a new member of the group at `group`.
pub fn take_fresh_signer(valid_signer: &Account, group: &[u8; 32], eth_address: [u8; 20]) -> (r:
    Result<ValidSigner, ProgramError>)
    ensures
        yields(r, fresh_signer(*valid_signer, group@, eth_address@)),
{
    let slot = match ValidSigner::try_from_slice(valid_signer.data.as_slice()) {
        Ok(s) => s,
        Err(e) => { return Err(e); },
    };
    if slot.version != UNINITIALIZED_VERSION {
        return Err(ProgramError::AlreadyInitialized);
    }
    Ok(ValidSigner { version: INITIALIZED_VERSION, signer_group: *group, eth_address })
}

/// Decides the record that an initialized signer of the group at `group` is
/// cleared to.
pub fn take_cleared_signer(valid_signer: &Account, group: &[u8; 32]) -> (r: Result<
    ValidSigner,
    ProgramError,
>)
    ensures
        yields(r, cleared_signer(*valid_signer, group@)),
{
    let slot = match ValidSigner::try_from_slice(valid_signer.data.as_slice()) {
        Ok(s) => s,
        Err(e) => { return Err(e); },
    };
    if !slot.is_initialized() {
        return Err(ProgramError::UninitializedAccount);
    }
    if !slices_equal(slot.signer_group.as_slice(), group.as_slice()) {
        return Err(ProgramError::AuthorizationError);
    }
    Ok(
        ValidSigner {
            version: CLEARED_VERSION,
            signer_group: slot.signer_group,
            eth_address: slot.eth_address,
        },
    )
}

/// Reads signer accounts as attestors, one position for each signer.
pub fn read_attestors(signers: &[Account], positions: &[u16]) -> (r: Result<
    Vec<Attestor>,
    ProgramError,
>)
    ensures
        match signer_attestors(signers@, positions@) {
            Err(e) => r matches Err(x) && x == e,
            Ok(views) => r matches Ok(attestors) && attestor_views(attestors@) == views,
        },
{
    if signers.len() < REQUIRED_SIGNERS as usize {
        return Err(ProgramError::NotEnoughSigners);
    }
    if signers.len() != positions.len() {
        return Err(ProgramError::NotEnoughAccountKeys);
    }
    let n = signers.len();
    let mut attestors: Vec<Attestor> = Vec::new();
    let mut i: usize = 0;
    while i < n
        invariant
            n == signers@.len(),
            n == positions@.len(),
            n >= REQUIRED_SIGNERS,
            i <= n,
            attestors@.len() == i,
            forall|k: int| 0 <= k < i ==> ValidSigner::decode(signers@[k].data@) is Ok,
            forall|k: int|
                0 <= k < i ==> (#[trigger] attestors@[k])@ == signer_attestor(
                    signers@[k],
                    positions@[k],
                ),
        decreases n - i,
    {
        let record = match ValidSigner::try_from_slice(signers[i].data.as_slice()) {
            Ok(s) => s,
            Err(_) => {
                assert(ValidSigner::decode(signers@[i as int].data@) is Err);
                return Err(ProgramError::DecodeError);
            },
        };
        attestors.push(
            Attestor { account: signers[i].key, identity: record.identity(), position: positions[i] },
        );
        i += 1;
    }
    proof {
        assert(attestor_views(attestors@) =~= signer_attestors(signers@, positions@).unwrap());
    }
    Ok(attestors)
}

/// Whether every declared signature carries exactly `message`.
pub fn check_declared(signatures: &[SignatureData], message: &[u8]) -> (r: bool)
    ensures
        r == all_declare(declared_messages(signatures@), message@),
{
    let n = signatures.len();
    let mut i: usize = 0;
    while i < n
        invariant
            n == signatures@.len(),
            i <= n,
            forall|k: int|
                0 <= k < i ==> #[trigger] declared_messages(signatures@)[k] == message@,
        decreases n - i,
    {
        if !slices_equal(signatures[i].message.as_slice(), message) {
            assert(declared_messages(signatures@)[i as int] != message@);
            return false;
        }
        i += 1;
    }
    true
}

/// Decides whether three signers of the group attest `message`.
pub fn check_attested(
    signers: &[Account],
    positions: &[u16],
    signer_group: &Account,
    sysvar: &Account,
    signatures: &[SignatureData],
    message: &[u8],
) -> (r: Result<(), ProgramError>)
    ensures
        r == attested(
            signers@,
            positions@,
            *signer_group,
            *sysvar,
            declared_messages(signatures@),
            message@,
        ),
{
    let group = match SignerGroup::try_from_slice(signer_group.data.as_slice()) {
        Ok(g) => g,
        Err(e) => { return Err(e); },
    };
    if !group.is_initialized() {
        return Err(ProgramError::UninitializedAccount);
    }
    let attestors = match read_attestors(signers, positions) {
        Ok(a) => a,
        Err(e) => { return Err(e); },
    };
    match evaluate_threshold(
        sysvar,
        &signer_group.key,
        REQUIRED_SIGNERS,
        &attestors,
        message,
        &None,
    ) {
        Ok(()) => {},
        Err(e) => { return Err(e); },
    }
    if !check_declared(signatures, message) {
        return Err(ProgramError::SignatureVerificationFailed);
    }
    Ok(())
}

/// A record to store: the place of the account among the declared
/// accounts, and the data to write.
#[derive(Clone, Debug)]
pub struct Store {
    /// The place of the account among the declared accounts.
    pub account: usize,
    /// The data to write.
    pub data: Vec<u8>,
}

/// Whether a result stores the expected data in the expected account.
pub open spec fn stores(r: Result<Option<Store>, ProgramError>, expected: Result<
    Option<(int, Seq<u8>)>,
    ProgramError,
>) -> bool {
    match expected {
        Err(e) => r matches Err(x) && x == e,
        Ok(None) => r matches Ok(None),
        Ok(Some((account, data))) => r matches Ok(Some(store)) && store.account == account
            && store.data@ == data,
    }
}

/// A group record to store in the account at `account`.
pub open spec fn group_stored(account: int, outcome: Result<SignerGroupView, ProgramError>)
    -> Result<Option<(int, Seq<u8>)>, ProgramError> {
    match outcome {
        Err(e) => Err(e),
        Ok(group) => Ok(Some((account, group.encode()))),
    }
}

/// A signer record to store in the account at `account`.
pub open spec fn signer_stored(account: int, outcome: Result<ValidSignerView, ProgramError>)
    -> Result<Option<(int, Seq<u8>)>, ProgramError> {
    match outcome {
        Err(e) => Err(e),
        Ok(signer) => Ok(Some((account, signer.encode()))),
    }
}

/// The verdict on an instruction: its payload must decode, the accounts it
/// needs must be declared in order, and the operation itself must be
/// accepted.
pub open spec fn process_outcome(accounts: Seq<Account>, positions: Seq<u16>, input: Seq<u8>)
    -> Result<Option<(int, Seq<u8>)>, ProgramError> {
    match ColivingInstruction::decode(input) {
        Err(e) => Err(e),
        Ok(ColivingInstructionView::InitSignerGroup) => if accounts.len() < 2 {
            Err(ProgramError::NotEnoughAccountKeys)
        } else {
            group_stored(0, init_signer_group_outcome(accounts[0], accounts[1]))
        },
        Ok(ColivingInstructionView::InitValidSigner(eth_address)) => if accounts.len() < 3 {
            Err(ProgramError::NotEnoughAccountKeys)
        } else {
            signer_stored(
                0,
                init_valid_signer_outcome(accounts[0], accounts[1], accounts[2], eth_address),
            )
        },
        Ok(ColivingInstructionView::ClearValidSigner) => if accounts.len() < 3 {
            Err(ProgramError::NotEnoughAccountKeys)
        } else {
            signer_stored(0, clear_valid_signer_outcome(accounts[0], accounts[1], accounts[2]))
        },
        Ok(ColivingInstructionView::ValidateMultipleSignaturesClearValidSigner(a, b, c)) => {
            if accounts.len() < 6 {
                Err(ProgramError::NotEnoughAccountKeys)
            } else {
                signer_stored(
                    4,
                    clear_signer_outcome(
                        accounts.subrange(0, 3),
                        positions,
                        accounts[3],
                        accounts[4],
                        accounts[5],
                        seq![a.message, b.message, c.message],
                    ),
                )
            }
        },
        Ok(ColivingInstructionView::ValidateSignature(signature)) => if accounts.len() < 3 {
            Err(ProgramError::NotEnoughAccountKeys)
        } else {
            match validate_signature_outcome(accounts[0], accounts[1], accounts[2], signature) {
                Err(e) => Err(e),
                Ok(()) => Ok(None),
            }
        },
        Ok(ColivingInstructionView::DisableSignerGroupOwner) => if accounts.len() < 2 {
            Err(ProgramError::NotEnoughAccountKeys)
        } else {
            group_stored(0, disable_outcome(accounts[0], accounts[1]))
        },
        Ok(ColivingInstructionView::ValidateMultipleSignaturesAddSigner(a, b, c, eth_address)) => {
            if accounts.len() < 6 {
                Err(ProgramError::NotEnoughAccountKeys)
            } else {
                signer_stored(
                    4,
                    add_signer_outcome(
                        accounts.subrange(0, 3),
                        positions,
                        accounts[3],
                        accounts[4],
                        accounts[5],
                        seq![a.message, b.message, c.message],
                        eth_address,
                    ),
                )
            }
        },
    }
}

/// Program state handler.
pub struct Processor;

impl Processor {
    /// Creates a signer group with `owner` as its owner.
    pub fn process_init_signer_group(signer_group: &Account, owner: &Account) -> (r: Result<
        SignerGroup,
        ProgramError,
    >)
        ensures
            yields(r, init_signer_group_outcome(*signer_group, *owner)),
    {
        let group = match SignerGroup::try_from_slice(signer_group.data.as_slice()) {
            Ok(g) => g,
            Err(e) => { return Err(e); },
        };
        if group.is_initialized() {
            return Err(ProgramError::AlreadyInitialized);
        }
        Ok(SignerGroup { version: INITIALIZED_VERSION, owner: owner.key, owner_enabled: true })
    }

    /// Adds a signer to a group on the owner's word.
    pub fn process_init_valid_signer(
        valid_signer: &Account,
        signer_group: &Account,
        owner: &Account,
        eth_address: [u8; 20],
    ) -> (r: Result<ValidSigner, ProgramError>)
        ensures
            yields(
                r,
                init_valid_signer_outcome(*valid_signer, *signer_group, *owner, eth_address@),
            ),
    {
        match authorize_owner(signer_group, owner) {
            Ok(_) => {},
            Err(e) => { return Err(e); },
        }
        take_fresh_signer(valid_signer, &signer_group.key, eth_address)
    }

    /// Removes a signer from a group on the owner's word.
    pub fn process_clear_valid_signer(
        valid_signer: &Account,
        signer_group: &Account,
        owner: &Account,
    ) -> (r: Result<ValidSigner, ProgramError>)
        ensures
            yields(r, clear_valid_signer_outcome(*valid_signer, *signer_group, *owner)),
    {
        match authorize_owner(signer_group, owner) {
            Ok(_) => {},
            Err(e) => { return Err(e); },
        }
        take_cleared_signer(valid_signer, &signer_group.key)
    }

    /// Disables the owner of a group, for good.
    pub fn process_disable_signer_group_owner(signer_group: &Account, owner: &Account) -> (r:
        Result<SignerGroup, ProgramError>)
        ensures
            yields(r, disable_outcome(*signer_group, *owner)),
    {
        let group = match authorize_owner(signer_group, owner) {
            Ok(g) => g,
            Err(e) => { return Err(e); },
        };
        Ok(SignerGroup { version: group.version, owner: group.owner, owner_enabled: false })
    }

    /// Validates a signature issued by a valid signer.
    pub fn process_validate_signature(
        valid_signer: &Account,
        signer_group: &Account,
        sysvar: &Account,
        signature_data: &SignatureData,
    ) -> (r: Result<(), ProgramError>)
        ensures
            r == validate_signature_outcome(
                *valid_signer,
                *signer_group,
                *sysvar,
                signature_data@,
            ),
    {
        let group = match SignerGroup::try_from_slice(signer_group.data.as_slice()) {
            Ok(g) => g,
            Err(e) => { return Err(e); },
        };
        let signer = match ValidSigner::try_from_slice(valid_signer.data.as_slice()) {
            Ok(s) => s,
            Err(e) => { return Err(e); },
        };
        if !group.is_initialized() || !signer.is_initialized() || !slices_equal(
            signer.signer_group.as_slice(),
            signer_group.key.as_slice(),
        ) {
            return Err(ProgramError::AuthorizationError);
        }
        let (position, data) = match locate_preceding(sysvar) {
            Ok(found) => found,
            Err(e) => { return Err(e); },
        };
        let signed = match bind_signer(data.as_slice(), position, &signer.eth_address) {
            Ok(m) => m,
            Err(e) => { return Err(e); },
        };
        if !slices_equal(signed.as_slice(), signature_data.message.as_slice()) {
            return Err(ProgramError::SignatureVerificationFailed);
        }
        Ok(())
    }

    /// Adds a signer to a group on the word of three of its signers.
    pub fn process_validate_multiple_signatures_add_signer(
        signers: &[Account],
        positions: &[u16],
        signer_group: &Account,
        new_valid_signer: &Account,
        sysvar: &Account,
        signatures: &[SignatureData],
        eth_address: [u8; 20],
    ) -> (r: Result<ValidSigner, ProgramError>)
        ensures
            yields(
                r,
                add_signer_outcome(
                    signers@,
                    positions@,
                    *signer_group,
                    *new_valid_signer,
                    *sysvar,
                    declared_messages(signatures@),
                    eth_address@,
                ),
            ),
    {
        let tag = add_tag();
        let message = canonical_message(tag.as_slice(), &signer_group.key, eth_address.as_slice());
        match check_attested(
            signers,
            positions,
            signer_group,
            sysvar,
            signatures,
            message.as_slice(),
        ) {
            Ok(()) => {},
            Err(e) => { return Err(e); },
        }
        take_fresh_signer(new_valid_signer, &signer_group.key, eth_address)
    }

    /// Removes a signer from a group on the word of three of its signers.
    pub fn process_validate_multiple_signatures_clear_valid_signer(
        signers: &[Account],
        positions: &[u16],
        signer_group: &Account,
        old_valid_signer: &Account,
        sysvar: &Account,
        signatures: &[SignatureData],
    ) -> (r: Result<ValidSigner, ProgramError>)
        ensures
            yields(
                r,
                clear_signer_outcome(
                    signers@,
                    positions@,
                    *signer_group,
                    *old_valid_signer,
                    *sysvar,
                    declared_messages(signatures@),
                ),
            ),
    {
        let cleared = match take_cleared_signer(old_valid_signer, &signer_group.key) {
            Ok(c) => c,
            Err(e) => { return Err(e); },
        };
        let tag = delete_tag();
        let message = canonical_message(
            tag.as_slice(),
            &signer_group.key,
            cleared.eth_address.as_slice(),
        );
        match check_attested(
            signers,
            positions,
            signer_group,
            sysvar,
            signatures,
            message.as_slice(),
        ) {
            Ok(()) => {},
            Err(e) => { return Err(e); },
        }
        Ok(cleared)
    }
    /// Writes a group record for the account at `account`.
    fn store_group(account: usize, outcome: Result<SignerGroup, ProgramError>) -> (r: Result<
        Option<Store>,
        ProgramError,
    >)
        ensures
            forall|expected: Result<SignerGroupView, ProgramError>|
                yields(outcome, expected) ==> stores(r, group_stored(account as int, expected)),
    {
        match outcome {
            Ok(group) => Ok(Some(Store { account, data: group.try_to_vec() })),
            Err(e) => Err(e),
        }
    }

    /// Writes a signer record for the account at `account`.
    fn store_signer(account: usize, outcome: Result<ValidSigner, ProgramError>) -> (r: Result<
        Option<Store>,
        ProgramError,
    >)
        ensures
            forall|expected: Result<ValidSignerView, ProgramError>|
                yields(outcome, expected) ==> stores(r, signer_stored(account as int, expected)),
    {
        match outcome {
            Ok(signer) => Ok(Some(Store { account, data: signer.try_to_vec() })),
            Err(e) => Err(e),
        }
    }

    /// Processes an instruction. `positions` names, for an instruction that
    /// three signers attest, the position of each signer's recovery
    /// instruction in the transaction.
    pub fn process(accounts: &[Account], positions: &[u16], input: &[u8]) -> (r: Result<
        Option<Store>,
        ProgramError,
    >)
        ensures
            stores(r, process_outcome(accounts@, positions@, input@)),
    {
        let instruction = match ColivingInstruction::try_from_slice(input) {
            Ok(i) => i,
            Err(e) => { return Err(e); },
        };
        match instruction {
            ColivingInstruction::InitSignerGroup => {
                if accounts.len() < 2 {
                    return Err(ProgramError::NotEnoughAccountKeys);
                }
                Self::store_group(0, Self::process_init_signer_group(&accounts[0], &accounts[1]))
            },
            ColivingInstruction::InitValidSigner(eth_address) => {
                if accounts.len() < 3 {
                    return Err(ProgramError::NotEnoughAccountKeys);
                }
                Self::store_signer(
                    0,
                    Self::process_init_valid_signer(
                        &accounts[0],
                        &accounts[1],
                        &accounts[2],
                        eth_address,
                    ),
                )
            },
            ColivingInstruction::ClearValidSigner => {
                if accounts.len() < 3 {
                    return Err(ProgramError::NotEnoughAccountKeys);
                }
                Self::store_signer(
                    0,
                    Self::process_clear_valid_signer(&accounts[0], &accounts[1], &accounts[2]),
                )
            },
            ColivingInstruction::ValidateMultipleSignaturesClearValidSigner(a, b, c) => {
                if accounts.len() < 6 {
                    return Err(ProgramError::NotEnoughAccountKeys);
                }
                let mut signatures: Vec<SignatureData> = Vec::new();
                signatures.push(a);
                signatures.push(b);
                signatures.push(c);
                proof {
                    assert(declared_messages(signatures@) =~= seq![
                        a.message@,
                        b.message@,
                        c.message@,
                    ]);
                }
                Self::store_signer(
                    4,
                    Self::process_validate_multiple_signatures_clear_valid_signer(
                        vstd::slice::slice_subrange(accounts, 0, 3),
                        positions,
                        &accounts[3],
                        &accounts[4],
                        &accounts[5],
                        signatures.as_slice(),
                    ),
                )
            },
            ColivingInstruction::ValidateSignature(signature) => {
                if accounts.len() < 3 {
                    return Err(ProgramError::NotEnoughAccountKeys);
                }
                match Self::process_validate_signature(
                    &accounts[0],
                    &accounts[1],
                    &accounts[2],
                    &signature,
                ) {
                    Ok(()) => Ok(None),
                    Err(e) => Err(e),
                }
            },
            ColivingInstruction::DisableSignerGroupOwner => {
                if accounts.len() < 2 {
                    return Err(ProgramError::NotEnoughAccountKeys);
                }
                Self::store_group(
                    0,
                    Self::process_disable_signer_group_owner(&accounts[0], &accounts[1]),
                )
            },
            ColivingInstruction::ValidateMultipleSignaturesAddSigner(a, b, c, eth_address) => {
                if accounts.len() < 6 {
                    return Err(ProgramError::NotEnoughAccountKeys);
                }
                let mut signatures: Vec<SignatureData> = Vec::new();
                signatures.push(a);
                signatures.push(b);
                signatures.push(c);
                proof {
                    assert(declared_messages(signatures@) =~= seq![
                        a.message@,
                        b.message@,
                        c.message@,
                    ]);
                }
                Self::store_signer(
                    4,
                    Self::process_validate_multiple_signatures_add_signer(
                        vstd::slice::slice_subrange(accounts, 0, 3),
                        positions,
                        &accounts[3],
                        &accounts[4],
                        &accounts[5],
                        signatures.as_slice(),
                        eth_address,
                    ),
                )
            },
        }
    }
}

} // verus!
