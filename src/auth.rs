//! Who may see and change a collection, and which status changes are allowed.
use vstd::prelude::*;
use crate::model::{Actor, ApiError, Collection, CollectionStatus, CollectionView, Role, Scope};

verus! {

/// A viewer may see a collection when it is public, or when the viewer owns
/// it or moderates.
pub open spec fn can_view(c: CollectionView, viewer: Option<Actor>) -> bool {
    c.status.spec_is_public() || match viewer {
        Some(a) => a.role.spec_is_mod() || a.id == c.user_id,
        None => false,
    }
}

/// Only owners and moderators change a collection.
pub open spec fn can_modify(c: CollectionView, a: Actor) -> bool {
    a.role.spec_is_mod() || a.id == c.user_id
}

/// The identity a read acts under: a credential without the read capability
/// reads as an anonymous viewer.
pub open spec fn reader(actor: Option<Actor>) -> Option<Actor> {
    match actor {
        Some(a) => if a.scopes.spec_has(Scope::CollectionRead) {
            Some(a)
        } else {
            None
        },
        None => None,
    }
}

/// A status change is allowed to moderators, and to others only from a
/// status in good standing to one an owner may request.
pub open spec fn may_set_status(
    role: Role,
    current: CollectionStatus,
    target: CollectionStatus,
) -> bool {
    role.spec_is_mod() || (current.spec_is_approved() && target.spec_can_be_requested())
}

/// The capability check that precedes any repository access.
pub open spec fn scope_gate(actor: Option<Actor>, scope: Scope) -> Result<Actor, ApiError> {
    match actor {
        None => Err(ApiError::Unauthenticated),
        Some(a) => if a.scopes.spec_has(scope) {
            Ok(a)
        } else {
            Err(ApiError::Forbidden)
        },
    }
}

pub fn is_authorized_collection(c: &Collection, viewer: &Option<Actor>) -> (r: bool)
    ensures
        r == can_view(c@, *viewer),
{
    if c.status.is_public() {
        return true;
    }
    match viewer {
        Some(a) => a.role.is_mod() || a.id == c.user_id,
        None => false,
    }
}

pub fn is_modifiable_by(c: &Collection, a: &Actor) -> (r: bool)
    ensures
        r == can_modify(c@, *a),
{
    a.role.is_mod() || a.id == c.user_id
}

pub fn read_identity(actor: &Option<Actor>) -> (r: Option<Actor>)
    ensures
        r == reader(*actor),
{
    match actor {
        Some(a) => if a.scopes.has(Scope::CollectionRead) {
            Some(*a)
        } else {
            None
        },
        None => None,
    }
}

pub fn status_change_allowed(
    role: Role,
    current: CollectionStatus,
    target: CollectionStatus,
) -> (r: bool)
    ensures
        r == may_set_status(role, current, target),
{
    role.is_mod() || (current.is_approved() && target.can_be_requested())
}

pub fn check_scope(actor: &Option<Actor>, scope: Scope) -> (r: Result<Actor, ApiError>)
    ensures
        r == scope_gate(*actor, scope),
{
    match actor {
        None => Err(ApiError::Unauthenticated),
        Some(a) => if a.scopes.has(scope) {
            Ok(*a)
        } else {
            Err(ApiError::Forbidden)
        },
    }
}

/// Moderators may set any status on any collection.
pub proof fn lemma_moderator_sets_any_status(
    role: Role,
    current: CollectionStatus,
    target: CollectionStatus,
)
    requires
        role.spec_is_mod(),
    ensures
        may_set_status(role, current, target),
{
}

/// An owner without moderation rights cannot move a collection to
/// `Approved`, whatever its current status, in particular from `Listed`.
pub proof fn lemma_owner_cannot_approve(role: Role, current: CollectionStatus)
    requires
        !role.spec_is_mod(),
    ensures
        !may_set_status(role, current, CollectionStatus::Approved),
        !may_set_status(role, CollectionStatus::Listed, CollectionStatus::Approved),
{
}

} // verus!
