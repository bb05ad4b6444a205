//! Properties that hold across operations.
use vstd::prelude::*;
use crate::auth::scope_gate;
use crate::membership::{all_resolve, parse_id, resolved_ids, strs_view};
use crate::model::{Actor, ApiError, CollectionStatus, Scope};
use crate::routes::{
    after_create, create_check, created_view, delete_outcome, edit_outcome, read_outcome,
};
use crate::store::StoreModel;
use crate::validate::{CollectionCreateData, EditCollection};

verus! {

/// A collection reads back as it was created: its title, its description,
/// the default `Listed` status and the projects it was created with.
pub proof fn lemma_create_then_get(
    s: StoreModel,
    actor: Option<Actor>,
    data: CollectionCreateData,
    now: i64,
    viewer: Option<Actor>,
    info: Seq<char>,
)
    requires
        create_check(s, actor, data) is Ok,
        parse_id(info) == Some(s.next_id),
    ensures
        ({
            let c = created_view(s, create_check(s, actor, data)->Ok_0, data, now);
            &&& read_outcome(after_create(s, c), viewer, info) == Ok::<_, ApiError>(c)
            &&& c.title == data.title@
            &&& c.description == data.description@
            &&& c.status == CollectionStatus::Listed
            &&& c.projects == resolved_ids(strs_view(data.projects@), s.projects)
        }),
{
}

/// An accepted edit, sent again unchanged, is accepted again and changes
/// nothing more; in particular a membership replacement leaves the same
/// members.
pub proof fn lemma_edit_idempotent(
    s: StoreModel,
    actor: Option<Actor>,
    info: Seq<char>,
    edit: EditCollection,
)
    requires
        edit_outcome(s, actor, info, edit) is Ok,
    ensures
        ({
            let s2 = edit_outcome(s, actor, info, edit)->Ok_0;
            edit_outcome(s2, actor, info, edit) == Ok::<StoreModel, ApiError>(s2)
        }),
{
    let s2 = edit_outcome(s, actor, info, edit)->Ok_0;
    let id = parse_id(info).unwrap();
    assert(s2.collections.insert(id, s2.collections[id]) =~= s2.collections);
}

/// A caller without the write capability can edit nothing, and one without
/// the delete capability can delete nothing: the request is refused before
/// the repository is consulted. An anonymous caller is refused as such.
pub proof fn lemma_writes_need_scope(
    s: StoreModel,
    actor: Option<Actor>,
    info: Seq<char>,
    edit: EditCollection,
)
    ensures
        actor matches Some(a) && !a.scopes.write ==> edit_outcome(s, actor, info, edit) == Err::<
            StoreModel,
            ApiError,
        >(ApiError::Forbidden),
        actor matches Some(a) && !a.scopes.delete ==> delete_outcome(s, actor, info) == Err::<
            StoreModel,
            ApiError,
        >(ApiError::Forbidden),
        actor is None ==> edit_outcome(s, actor, info, edit) == Err::<StoreModel, ApiError>(
            ApiError::Unauthenticated,
        ) && delete_outcome(s, actor, info) == Err::<StoreModel, ApiError>(
            ApiError::Unauthenticated,
        ),
{
}

/// A membership edit naming a project that does not exist is refused as a
/// whole, and once every other check passes, it is refused for that reason.
pub proof fn lemma_unknown_project_refused(
    s: StoreModel,
    actor: Option<Actor>,
    info: Seq<char>,
    edit: EditCollection,
)
    requires
        edit.new_projects matches Some(p) && !all_resolve(strs_view(p@), s.projects),
    ensures
        edit_outcome(s, actor, info, edit) is Err,
        ({
            let a = scope_gate(actor, Scope::CollectionWrite);
            a is Ok && edit.spec_valid() && crate::routes::access_gate(s, a->Ok_0, info) is Ok
                && edit.status is None ==> edit_outcome(s, actor, info, edit) == Err::<
                StoreModel,
                ApiError,
            >(ApiError::ReferencedEntityMissing)
        }),
{
}

/// A deleted collection is gone, membership included, and reads as absent
/// to everyone.
pub proof fn lemma_delete_then_get(
    s: StoreModel,
    actor: Option<Actor>,
    info: Seq<char>,
    viewer: Option<Actor>,
)
    requires
        delete_outcome(s, actor, info) is Ok,
    ensures
        ({
            let s2 = delete_outcome(s, actor, info)->Ok_0;
            &&& !s2.collections.contains_key(parse_id(info).unwrap())
            &&& read_outcome(s2, viewer, info) == Err::<
                crate::model::CollectionView,
                ApiError,
            >(ApiError::NotFound)
        }),
{
}

} // verus!
