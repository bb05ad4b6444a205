//! Collections, the actors who act on them, and the errors operations report.
use vstd::prelude::*;

verus! {

/// Visibility and moderation state of a collection.
#[derive(Clone, Copy, Debug, PartialEq, Eq, Structural)]
pub enum CollectionStatus {
    /// Public, chosen by the owner.
    Listed,
    /// Visible to its owner and moderators only.
    Private,
    /// Public, confirmed by a moderator.
    Approved,
    /// Hidden by a moderator.
    Rejected,
}

impl CollectionStatus {
    /// The collection has not been rejected by moderation.
    pub open spec fn spec_is_approved(self) -> bool {
        self is Listed || self is Private || self is Approved
    }

    /// An owner may pick this status for a collection that is in good standing.
    pub open spec fn spec_can_be_requested(self) -> bool {
        self is Listed || self is Private
    }

    /// Anyone may see a collection in this status.
    pub open spec fn spec_is_public(self) -> bool {
        self is Listed || self is Approved
    }

    pub fn is_approved(&self) -> (r: bool)
        ensures
            r == self.spec_is_approved(),
    {
        match self {
            CollectionStatus::Listed | CollectionStatus::Private | CollectionStatus::Approved => true,
            CollectionStatus::Rejected => false,
        }
    }

    pub fn can_be_requested(&self) -> (r: bool)
        ensures
            r == self.spec_can_be_requested(),
    {
        match self {
            CollectionStatus::Listed | CollectionStatus::Private => true,
            _ => false,
        }
    }

    pub fn is_public(&self) -> (r: bool)
        ensures
            r == self.spec_is_public(),
    {
        match self {
            CollectionStatus::Listed | CollectionStatus::Approved => true,
            _ => false,
        }
    }
}

/// Role of a user account.
#[derive(Clone, Copy, Debug, PartialEq, Eq, Structural)]
pub enum Role {
    Developer,
    Moderator,
    Admin,
}

impl Role {
    pub open spec fn spec_is_mod(self) -> bool {
        self is Moderator || self is Admin
    }

    /// Moderators and admins override ownership and visibility rules.
    pub fn is_mod(&self) -> (r: bool)
        ensures
            r == self.spec_is_mod(),
    {
        match self {
            Role::Developer => false,
            _ => true,
        }
    }
}

/// A capability that an operation requires of the caller's credential.
#[derive(Clone, Copy, Debug, PartialEq, Eq, Structural)]
pub enum Scope {
    CollectionCreate,
    CollectionRead,
    CollectionWrite,
    CollectionDelete,
}

/// The capabilities a credential carries.
#[derive(Clone, Copy, Debug, PartialEq, Eq, Structural)]
pub struct Scopes {
    pub create: bool,
    pub read: bool,
    pub write: bool,
    pub delete: bool,
}

impl Scopes {
    pub open spec fn spec_has(self, s: Scope) -> bool {
        match s {
            Scope::CollectionCreate => self.create,
            Scope::CollectionRead => self.read,
            Scope::CollectionWrite => self.write,
            Scope::CollectionDelete => self.delete,
        }
    }

    pub fn has(&self, s: Scope) -> (r: bool)
        ensures
            r == self.spec_has(s),
    {
        match s {
            Scope::CollectionCreate => self.create,
            Scope::CollectionRead => self.read,
            Scope::CollectionWrite => self.write,
            Scope::CollectionDelete => self.delete,
        }
    }
}

/// An authenticated caller.
#[derive(Clone, Copy, Debug, PartialEq, Eq, Structural)]
pub struct Actor {
    pub id: u64,
    pub role: Role,
    pub scopes: Scopes,
}

/// Failure of a collection operation.
#[derive(Clone, Copy, Debug, PartialEq, Eq, Structural)]
pub enum ApiError {
    /// No credential was presented.
    Unauthenticated,
    /// The caller lacks the capability, ownership or role the operation needs.
    Forbidden,
    /// Unknown identifier, or a collection the caller may not see.
    NotFound,
    /// A field, extension, identifier or payload size was rejected.
    Validation,
    /// A project named in a membership edit does not exist.
    ReferencedEntityMissing,
    /// The store could not complete the operation.
    StorageFailure,
}

/// A collection as stored: its row, without membership.
#[derive(Debug)]
pub struct CollectionRow {
    pub id: u64,
    pub user_id: u64,
    pub title: String,
    pub description: String,
    pub status: CollectionStatus,
    pub icon_url: Option<String>,
    pub color: Option<u32>,
    pub created: i64,
    pub updated: i64,
}

/// A collection with its members, as handed to callers.
#[derive(Debug)]
pub struct Collection {
    pub id: u64,
    pub user_id: u64,
    pub title: String,
    pub description: String,
    pub status: CollectionStatus,
    pub icon_url: Option<String>,
    pub color: Option<u32>,
    pub created: i64,
    pub updated: i64,
    pub projects: Vec<u64>,
}

/// Mathematical value of a collection.
pub ghost struct CollectionView {
    pub id: u64,
    pub user_id: u64,
    pub title: Seq<char>,
    pub description: Seq<char>,
    pub status: CollectionStatus,
    pub icon_url: Option<Seq<char>>,
    pub color: Option<u32>,
    pub created: i64,
    pub updated: i64,
    pub projects: Seq<u64>,
}

pub open spec fn opt_str_view(o: Option<String>) -> Option<Seq<char>> {
    match o {
        Some(s) => Some(s@),
        None => None,
    }
}

pub fn clone_opt_str(o: &Option<String>) -> (r: Option<String>)
    ensures
        opt_str_view(r) == opt_str_view(*o),
{
    match o {
        Some(s) => Some(s.clone()),
        None => None,
    }
}

impl CollectionRow {
    /// The collection this row describes, with the given members.
    pub open spec fn with_projects(self, projects: Seq<u64>) -> CollectionView {
        CollectionView {
            id: self.id,
            user_id: self.user_id,
            title: self.title@,
            description: self.description@,
            status: self.status,
            icon_url: opt_str_view(self.icon_url),
            color: self.color,
            created: self.created,
            updated: self.updated,
            projects,
        }
    }

    /// A copy of this row joined with `projects`.
    pub fn materialize(&self, projects: &Vec<u64>) -> (r: Collection)
        ensures
            r@ == self.with_projects(projects@),
    {
        Collection {
            id: self.id,
            user_id: self.user_id,
            title: self.title.clone(),
            description: self.description.clone(),
            status: self.status,
            icon_url: clone_opt_str(&self.icon_url),
            color: self.color,
            created: self.created,
            updated: self.updated,
            projects: projects.clone(),
        }
    }
}

impl View for Collection {
    type V = CollectionView;

    open spec fn view(&self) -> CollectionView {
        CollectionView {
            id: self.id,
            user_id: self.user_id,
            title: self.title@,
            description: self.description@,
            status: self.status,
            icon_url: opt_str_view(self.icon_url),
            color: self.color,
            created: self.created,
            updated: self.updated,
            projects: self.projects@,
        }
    }
}

impl Collection {
    /// An independent copy with the same value.
    pub fn copied(&self) -> (r: Collection)
        ensures
            r@ == self@,
    {
        Collection {
            id: self.id,
            user_id: self.user_id,
            title: self.title.clone(),
            description: self.description.clone(),
            status: self.status,
            icon_url: clone_opt_str(&self.icon_url),
            color: self.color,
            created: self.created,
            updated: self.updated,
            projects: self.projects.clone(),
        }
    }
}

} // verus!
