//! Binds what a recovery instruction attests to what the caller expects:
//! one signer exactly, or a threshold of distinct signers of one group.

use crate::account::Account;
use crate::codec::slices_equal;
use crate::error::{yields, ProgramError};
use crate::locator::{companion_at, locate_companion};
use crate::secp::{parse_recovery, recovery_of};
use vstd::prelude::*;

verus! {

/// The message that the recovery instruction found at `position` attests for
/// `expected_signer`: its layout must be trusted at that position and its
/// address must be the expected one. A position beyond 255 attests nothing:
/// no index field can name it.
pub open spec fn bound_message(data: Seq<u8>, position: int, expected_signer: Seq<u8>) -> Result<
    Seq<u8>,
    ProgramError,
> {
    if 0 <= position <= u8::MAX {
        match recovery_of(data, position as u8) {
            Ok(recovered) => if recovered.eth_address == expected_signer {
                Ok(recovered.message)
            } else {
                Err(ProgramError::SignatureVerificationFailed)
            },
            Err(e) => Err(e),
        }
    } else {
        Err(ProgramError::SignatureVerificationFailed)
    }
}

/// Checks the recovery instruction found at `position` against the expected
/// signer and hands out the signed message.
///
/// A position beyond 255 is rejected: no index field can name it.
pub fn bind_signer(data: &[u8], position: u16, expected_signer: &[u8; 20]) -> (r: Result<
    Vec<u8>,
    ProgramError,
>)
    ensures
        yields(r, bound_message(data@, position as int, expected_signer@)),
{
    if position > 255 {
        return Err(ProgramError::SignatureVerificationFailed);
    }
    let recovered = match parse_recovery(data, position as u8) {
        Ok(rec) => rec,
        Err(e) => { return Err(e); },
    };
    if !slices_equal(recovered.eth_address.as_slice(), expected_signer.as_slice()) {
        return Err(ProgramError::SignatureVerificationFailed);
    }
    Ok(recovered.message)
}

/// A persisted allow-list record, as the evaluator reads it.
#[derive(Clone, Copy, Debug)]
pub struct AuthorizedIdentity {
    /// Whether the record is initialized.
    pub initialized: bool,
    /// The group that the identity belongs to.
    pub group: [u8; 32],
    /// The identity's external address.
    pub eth_address: [u8; 20],
    /// The identity's operator, where the group tags identities with one.
    pub operator: Option<[u8; 20]>,
}

/// An allow-list record as a mathematical value.
pub struct AuthorizedIdentityView {
    pub initialized: bool,
    pub group: Seq<u8>,
    pub eth_address: Seq<u8>,
    pub operator: Option<Seq<u8>>,
}

/// An operator tag by its bytes.
pub open spec fn tag_view(tag: Option<[u8; 20]>) -> Option<Seq<u8>> {
    match tag {
        Some(t) => Some(t@),
        None => None,
    }
}

impl View for AuthorizedIdentity {
    type V = AuthorizedIdentityView;

    open spec fn view(&self) -> AuthorizedIdentityView {
        AuthorizedIdentityView {
            initialized: self.initialized,
            group: self.group@,
            eth_address: self.eth_address@,
            operator: tag_view(self.operator),
        }
    }
}

/// One attesting identity: its account, its record, and the position of the
/// recovery instruction that carries its signature.
#[derive(Clone, Copy, Debug)]
pub struct Attestor {
    /// The key of the identity's account.
    pub account: [u8; 32],
    /// The identity's record.
    pub identity: AuthorizedIdentity,
    /// The position of its recovery instruction in the transaction.
    pub position: u16,
}

/// An attesting identity as a mathematical value.
pub struct AttestorView {
    pub account: Seq<u8>,
    pub identity: AuthorizedIdentityView,
    pub position: u16,
}

impl View for Attestor {
    type V = AttestorView;

    open spec fn view(&self) -> AttestorView {
        AttestorView { account: self.account@, identity: self.identity@, position: self.position }
    }
}

/// The attestors of a list as mathematical values.
pub open spec fn attestor_views(attestors: Seq<Attestor>) -> Seq<AttestorView> {
    Seq::new(attestors.len(), |i: int| attestors[i]@)
}

/// Whether no account and no position occurs twice among the attestors.
pub open spec fn pairwise_distinct(attestors: Seq<AttestorView>) -> bool {
    forall|i: int, j: int|
        0 <= i < j < attestors.len() ==> attestors[i].account != attestors[j].account
            && attestors[i].position != attestors[j].position
}

/// Whether every attestor is an initialized identity of `group`.
pub open spec fn all_members(attestors: Seq<AttestorView>, group: Seq<u8>) -> bool {
    forall|i: int|
        0 <= i < attestors.len() ==> attestors[i].identity.initialized
            && attestors[i].identity.group == group
}

/// Two operator tags collide when both are present and equal.
pub open spec fn tags_collide(a: Option<Seq<u8>>, b: Option<Seq<u8>>) -> bool {
    a matches Some(x) && b matches Some(y) && x == y
}

/// Whether the operator of a new identity is free: it differs from the tag
/// of every attestor, and the attestors' tags differ from one another. An
/// operation that introduces no operator asks for nothing.
pub open spec fn operators_free(attestors: Seq<AttestorView>, new_operator: Option<Seq<u8>>)
    -> bool {
    new_operator is Some ==> {
        &&& forall|i: int|
            0 <= i < attestors.len() ==> !tags_collide(attestors[i].identity.operator, new_operator)
        &&& forall|i: int, j: int|
            0 <= i < j < attestors.len() ==> !tags_collide(
                attestors[i].identity.operator,
                attestors[j].identity.operator,
            )
    }
}

/// Whether one attestor's recovery instruction is found, is bound to the
/// attestor's address and signs exactly `message`.
pub open spec fn attestation_outcome(sysvar: Account, attestor: AttestorView, message: Seq<u8>)
    -> Result<(), ProgramError> {
    match companion_at(sysvar, attestor.position as int) {
        Err(e) => Err(e),
        Ok(data) => match bound_message(
            data,
            attestor.position as int,
            attestor.identity.eth_address,
        ) {
            Err(e) => Err(e),
            Ok(signed) => if signed == message {
                Ok(())
            } else {
                Err(ProgramError::SignatureVerificationFailed)
            },
        },
    }
}

/// The first failure among the attestations from `from` on, or success.
pub open spec fn attestations_outcome(
    sysvar: Account,
    attestors: Seq<AttestorView>,
    message: Seq<u8>,
    from: int,
) -> Result<(), ProgramError>
    decreases attestors.len() - from,
{
    if from < 0 || from >= attestors.len() {
        Ok(())
    } else {
        match attestation_outcome(sysvar, attestors[from], message) {
            Err(e) => Err(e),
            Ok(()) => attestations_outcome(sysvar, attestors, message, from + 1),
        }
    }
}

/// Whether a threshold of `required` attestations over `message` authorizes
/// an operation on `group`. The checks come in this order: enough
/// attestors; no attestor twice; every attestor an initialized member of the
/// group; no operator collision; every attestation bound, first failure
/// first.
pub open spec fn threshold_outcome(
    sysvar: Account,
    group: Seq<u8>,
    required: nat,
    attestors: Seq<AttestorView>,
    message: Seq<u8>,
    new_operator: Option<Seq<u8>>,
) -> Result<(), ProgramError> {
    if attestors.len() < required {
        Err(ProgramError::NotEnoughSigners)
    } else if !pairwise_distinct(attestors) {
        Err(ProgramError::RepeatedSigners)
    } else if !all_members(attestors, group) {
        Err(ProgramError::AuthorizationError)
    } else if !operators_free(attestors, new_operator) {
        Err(ProgramError::OperatorCollision)
    } else {
        attestations_outcome(sysvar, attestors, message, 0)
    }
}

/// The message that binds an attestation to one operation on one group:
/// the action's tag, the group, and what the action targets.
pub open spec fn spec_canonical_message(tag: Seq<u8>, group: Seq<u8>, target: Seq<u8>) -> Seq<u8> {
    tag + group + target
}

/// The tag of an attestation that adds an identity: the text `add`.
pub open spec fn spec_add_tag() -> Seq<u8> {
    seq![0x61u8, 0x64, 0x64]
}

/// The tag of an attestation that removes an identity: the text `delete`.
pub open spec fn spec_delete_tag() -> Seq<u8> {
    seq![0x64u8, 0x65, 0x6c, 0x65, 0x74, 0x65]
}

/// The tag of an attestation that adds an identity.
pub fn add_tag() -> (r: [u8; 3])
    ensures
        r@ == spec_add_tag(),
{
    let tag: [u8; 3] = [0x61, 0x64, 0x64];
    assert(tag@ =~= spec_add_tag());
    tag
}

/// The tag of an attestation that removes an identity.
pub fn delete_tag() -> (r: [u8; 6])
    ensures
        r@ == spec_delete_tag(),
{
    let tag: [u8; 6] = [0x64, 0x65, 0x6c, 0x65, 0x74, 0x65];
    assert(tag@ =~= spec_delete_tag());
    tag
}

/// Builds the message that binds an attestation to one operation on one
/// group.
pub fn canonical_message(tag: &[u8], group: &[u8; 32], target: &[u8]) -> (r: Vec<u8>)
    ensures
        r@ == spec_canonical_message(tag@, group@, target@),
{
    let mut message: Vec<u8> = Vec::new();
    crate::codec::append(&mut message, tag);
    crate::codec::append(&mut message, group.as_slice());
    crate::codec::append(&mut message, target);
    message
}

/// Whether two operator tags collide.
pub fn operators_collide(a: &Option<[u8; 20]>, b: &Option<[u8; 20]>) -> (r: bool)
    ensures
        r == tags_collide(tag_view(*a), tag_view(*b)),
{
    match (a, b) {
        (Some(x), Some(y)) => slices_equal(x.as_slice(), y.as_slice()),
        _ => false,
    }
}

/// Whether no account and no position occurs twice among the attestors.
pub fn check_distinct(attestors: &Vec<Attestor>) -> (r: bool)
    ensures
        r == pairwise_distinct(attestor_views(attestors@)),
{
    let ghost views = attestor_views(attestors@);
    let n = attestors.len();
    let mut i: usize = 0;
    while i < n
        invariant
            n == attestors@.len(),
            views == attestor_views(attestors@),
            i <= n,
            forall|a: int, b: int|
                0 <= a < b < n && a < i ==> views[a].account != views[b].account
                    && views[a].position != views[b].position,
        decreases n - i,
    {
        let mut j: usize = i + 1;
        while j < n
            invariant
                n == attestors@.len(),
                views == attestor_views(attestors@),
                i < n,
                i < j <= n,
                forall|b: int|
                    i < b < j ==> views[i as int].account != views[b].account
                        && views[i as int].position != views[b].position,
            decreases n - j,
        {
            let same_account = slices_equal(
                attestors[i].account.as_slice(),
                attestors[j].account.as_slice(),
            );
            if same_account || attestors[i].position == attestors[j].position {
                assert(views[i as int].account == views[j as int].account
                    || views[i as int].position == views[j as int].position);
                return false;
            }
            j += 1;
        }
        i += 1;
    }
    true
}

/// Whether every attestor is an initialized identity of `group`.
pub fn check_members(attestors: &Vec<Attestor>, group: &[u8; 32]) -> (r: bool)
    ensures
        r == all_members(attestor_views(attestors@), group@),
{
    let ghost views = attestor_views(attestors@);
    let n = attestors.len();
    let mut i: usize = 0;
    while i < n
        invariant
            n == attestors@.len(),
            views == attestor_views(attestors@),
            i <= n,
            forall|k: int|
                0 <= k < i ==> views[k].identity.initialized && views[k].identity.group == group@,
        decreases n - i,
    {
        if !attestors[i].identity.initialized || !slices_equal(
            attestors[i].identity.group.as_slice(),
            group.as_slice(),
        ) {
            assert(!(views[i as int].identity.initialized && views[i as int].identity.group
                == group@));
            return false;
        }
        i += 1;
    }
    true
}

/// Whether the operator of a new identity is free among the attestors.
pub fn check_operators(attestors: &Vec<Attestor>, new_operator: &Option<[u8; 20]>) -> (r: bool)
    ensures
        r == operators_free(attestor_views(attestors@), tag_view(*new_operator)),
{
    if new_operator.is_none() {
        return true;
    }
    let ghost views = attestor_views(attestors@);
    let ghost wanted = tag_view(*new_operator);
    let n = attestors.len();
    let mut i: usize = 0;
    while i < n
        invariant
            n == attestors@.len(),
            views == attestor_views(attestors@),
            wanted == tag_view(*new_operator),
            wanted is Some,
            i <= n,
            forall|a: int| 0 <= a < i ==> !tags_collide(views[a].identity.operator, wanted),
            forall|a: int, b: int|
                0 <= a < b < n && a < i ==> !tags_collide(
                    views[a].identity.operator,
                    views[b].identity.operator,
                ),
        decreases n - i,
    {
        if operators_collide(&attestors[i].identity.operator, new_operator) {
            assert(tags_collide(views[i as int].identity.operator, wanted));
            return false;
        }
        let mut j: usize = i + 1;
        while j < n
            invariant
                n == attestors@.len(),
                views == attestor_views(attestors@),
                wanted is Some,
                wanted == tag_view(*new_operator),
                i < n,
                i < j <= n,
                forall|b: int|
                    i < b < j ==> !tags_collide(
                        views[i as int].identity.operator,
                        views[b].identity.operator,
                    ),
            decreases n - j,
        {
            if operators_collide(&attestors[i].identity.operator, &attestors[j].identity.operator) {
                assert(tags_collide(
                    views[i as int].identity.operator,
                    views[j as int].identity.operator,
                ));
                return false;
            }
            j += 1;
        }
        i += 1;
    }
    true
}

/// Checks one attestation: locates the recovery instruction at the
/// attestor's position, binds it to the attestor's address and compares the
/// signed message.
pub fn check_attestation(sysvar: &Account, attestor: &Attestor, message: &[u8]) -> (r:
    Result<(), ProgramError>)
    ensures
        r == attestation_outcome(*sysvar, attestor@, message@),
{
    let data = match locate_companion(sysvar, attestor.position) {
        Ok(d) => d,
        Err(e) => { return Err(e); },
    };
    let signed = match bind_signer(data.as_slice(), attestor.position, &attestor.identity.eth_address) {
        Ok(m) => m,
        Err(e) => { return Err(e); },
    };
    if slices_equal(signed.as_slice(), message) {
        Ok(())
    } else {
        Err(ProgramError::SignatureVerificationFailed)
    }
}

/// Decides whether a threshold of attestations authorizes an operation.
pub fn evaluate_threshold(
    sysvar: &Account,
    group: &[u8; 32],
    required: u8,
    attestors: &Vec<Attestor>,
    message: &[u8],
    new_operator: &Option<[u8; 20]>,
) -> (r: Result<(), ProgramError>)
    ensures
        r == threshold_outcome(
            *sysvar,
            group@,
            required as nat,
            attestor_views(attestors@),
            message@,
            tag_view(*new_operator),
        ),
{
    if attestors.len() < required as usize {
        return Err(ProgramError::NotEnoughSigners);
    }
    if !check_distinct(attestors) {
        return Err(ProgramError::RepeatedSigners);
    }
    if !check_members(attestors, group) {
        return Err(ProgramError::AuthorizationError);
    }
    if !check_operators(attestors, new_operator) {
        return Err(ProgramError::OperatorCollision);
    }
    let ghost views = attestor_views(attestors@);
    let n = attestors.len();
    let mut i: usize = 0;
    while i < n
        invariant
            n == attestors@.len(),
            views == attestor_views(attestors@),
            i <= n,
            n >= required,
            pairwise_distinct(views),
            all_members(views, group@),
            operators_free(views, tag_view(*new_operator)),
            attestations_outcome(*sysvar, views, message@, 0) == attestations_outcome(
                *sysvar,
                views,
                message@,
                i as int,
            ),
        decreases n - i,
    {
        match check_attestation(sysvar, &attestors[i], message) {
            Ok(()) => {},
            Err(e) => { return Err(e); },
        }
        i += 1;
    }
    Ok(())
}

} // verus!
