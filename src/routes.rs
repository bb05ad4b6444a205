//! The collection operations: create, read, list, edit and delete.
use vstd::prelude::*;
use crate::auth::{
    can_modify, can_view, check_scope, is_authorized_collection, is_modifiable_by,
    may_set_status, read_identity, reader, scope_gate, status_change_allowed,
};
use crate::base62::parse_base62;
use crate::membership::{
    all_resolve, parse_id, resolve_projects, resolved_ids, strs_view,
};
use crate::model::{
    clone_opt_str, Actor, ApiError, Collection, CollectionRow, CollectionStatus, CollectionView,
    Scope,
};
use crate::store::{CollectionStore, StoreModel};
use crate::validate::{trim, trimmed_of, CollectionCreateData, CollectionIds, EditCollection};

verus! {

/// The collection a write names, once the actor has passed the capability
/// check: the text must be an identifier, the collection must exist and be
/// visible to the actor (else it reads as absent), and the actor must own it
/// or moderate.
pub open spec fn access_gate(s: StoreModel, a: Actor, info: Seq<char>) -> Result<u64, ApiError> {
    match parse_id(info) {
        None => Err(ApiError::Validation),
        Some(id) => if !s.collections.contains_key(id) || !can_view(
            s.collections[id],
            Some(a),
        ) {
            Err(ApiError::NotFound)
        } else if !can_modify(s.collections[id], a) {
            Err(ApiError::Forbidden)
        } else {
            Ok(id)
        },
    }
}

/// Looks up the collection a write names; see `access_gate`.
pub fn authorize_write(store: &mut CollectionStore, a: &Actor, info: &str) -> (r: Result<
    Collection,
    ApiError,
>)
    requires
        old(store).wf(),
    ensures
        final(store).wf(),
        final(store)@ == old(store)@,
        match access_gate(old(store)@, *a, info@) {
            Ok(id) => r is Ok && r->Ok_0@ == old(store)@.collections[id] && r->Ok_0.id == id,
            Err(e) => r == Err::<Collection, ApiError>(e),
        },
{
    let id = match parse_base62(info) {
        Ok(id) => id,
        Err(_) => {
            return Err(ApiError::Validation);
        },
    };
    let c = match store.get(id) {
        Some(c) => c,
        None => {
            return Err(ApiError::NotFound);
        },
    };
    if !is_authorized_collection(&c, &Some(*a)) {
        return Err(ApiError::NotFound);
    }
    if !is_modifiable_by(&c, a) {
        return Err(ApiError::Forbidden);
    }
    Ok(c)
}

/// Why a create request is refused, if it is.
pub open spec fn create_check(s: StoreModel, actor: Option<Actor>, data: CollectionCreateData) -> Result<
    Actor,
    ApiError,
> {
    match scope_gate(actor, Scope::CollectionCreate) {
        Err(e) => Err(e),
        Ok(a) => if !data.spec_valid() {
            Err(ApiError::Validation)
        } else if s.next_id == u64::MAX {
            Err(ApiError::StorageFailure)
        } else {
            Ok(a)
        },
    }
}

/// The collection a create request makes at time `now`: listed, without
/// icon, holding the named projects that exist.
pub open spec fn created_view(
    s: StoreModel,
    a: Actor,
    data: CollectionCreateData,
    now: i64,
) -> CollectionView {
    CollectionView {
        id: s.next_id,
        user_id: a.id,
        title: data.title@,
        description: data.description@,
        status: CollectionStatus::Listed,
        icon_url: None,
        color: None,
        created: now,
        updated: now,
        projects: resolved_ids(strs_view(data.projects@), s.projects),
    }
}

/// The repository after a create request that succeeded.
pub open spec fn after_create(s: StoreModel, c: CollectionView) -> StoreModel {
    StoreModel {
        collections: s.collections.insert(c.id, c),
        next_id: (s.next_id + 1) as u64,
        ..s
    }
}

/// Creates a collection stamped with time `now`, in one step: nothing is
/// stored unless the whole request is accepted.
pub fn create_collection_at(
    store: &mut CollectionStore,
    actor: &Option<Actor>,
    data: &CollectionCreateData,
    now: i64,
) -> (r: Result<Collection, ApiError>)
    requires
        old(store).wf(),
    ensures
        final(store).wf(),
        match create_check(old(store)@, *actor, *data) {
            Ok(a) => r is Ok && r->Ok_0@ == created_view(old(store)@, a, *data, now)
                && final(store)@ == after_create(old(store)@, r->Ok_0@),
            Err(e) => r == Err::<Collection, ApiError>(e) && final(store)@ == old(store)@,
        },
{
    let a = check_scope(actor, Scope::CollectionCreate)?;
    data.validate()?;
    let (projects, _) = resolve_projects(store, &data.projects);
    let id = match store.allocate_id() {
        Some(id) => id,
        None => {
            return Err(ApiError::StorageFailure);
        },
    };
    let row = CollectionRow {
        id,
        user_id: a.id,
        title: data.title.clone(),
        description: data.description.clone(),
        status: CollectionStatus::Listed,
        icon_url: None,
        color: None,
        created: now,
        updated: now,
    };
    let c = row.materialize(&projects);
    store.insert(row, projects);
    Ok(c)
}

/// Relies on `chrono::Utc::now`: the current time, in seconds since the Unix
/// epoch. Nothing is known of its value.
#[verifier::external_body]
fn now_seconds() -> (r: i64) {
    chrono::Utc::now().timestamp()
}

/// Creates a collection stamped with the current time.
pub fn collection_create(
    store: &mut CollectionStore,
    actor: &Option<Actor>,
    data: &CollectionCreateData,
) -> (r: Result<Collection, ApiError>)
    requires
        old(store).wf(),
    ensures
        final(store).wf(),
        match create_check(old(store)@, *actor, *data) {
            Ok(a) => r is Ok && r->Ok_0@ == created_view(old(store)@, a, *data, r->Ok_0.created)
                && final(store)@ == after_create(old(store)@, r->Ok_0@),
            Err(e) => r == Err::<Collection, ApiError>(e) && final(store)@ == old(store)@,
        },
{
    let now = now_seconds();
    create_collection_at(store, actor, data, now)
}

/// What a read of the collection named by `info` returns: hidden
/// collections read as absent.
pub open spec fn read_outcome(s: StoreModel, actor: Option<Actor>, info: Seq<char>) -> Result<
    CollectionView,
    ApiError,
> {
    match parse_id(info) {
        None => Err(ApiError::Validation),
        Some(id) => if s.collections.contains_key(id) && can_view(
            s.collections[id],
            reader(actor),
        ) {
            Ok(s.collections[id])
        } else {
            Err(ApiError::NotFound)
        },
    }
}

/// Reads one collection.
pub fn collection_get(store: &mut CollectionStore, actor: &Option<Actor>, info: &str) -> (r:
    Result<Collection, ApiError>)
    requires
        old(store).wf(),
    ensures
        final(store).wf(),
        final(store)@ == old(store)@,
        match read_outcome(old(store)@, *actor, info@) {
            Ok(c) => r is Ok && r->Ok_0@ == c,
            Err(e) => r == Err::<Collection, ApiError>(e),
        },
{
    let viewer = read_identity(actor);
    let id = match parse_base62(info) {
        Ok(id) => id,
        Err(_) => {
            return Err(ApiError::Validation);
        },
    };
    match store.get(id) {
        Some(c) => if is_authorized_collection(&c, &viewer) {
            Ok(c)
        } else {
            Err(ApiError::NotFound)
        },
        None => Err(ApiError::NotFound),
    }
}

/// The collections among `ids` that exist and that `viewer` may see, in the
/// order of `ids`.
pub open spec fn visible_among(s: StoreModel, ids: Seq<u64>, viewer: Option<Actor>) -> Seq<
    CollectionView,
>
    decreases ids.len(),
{
    if ids.len() == 0 {
        Seq::empty()
    } else {
        let prev = visible_among(s, ids.drop_last(), viewer);
        let id = ids.last();
        if s.collections.contains_key(id) && can_view(s.collections[id], viewer) {
            prev.push(s.collections[id])
        } else {
            prev
        }
    }
}

pub open spec fn views_of(v: Seq<Collection>) -> Seq<CollectionView> {
    v.map_values(|c: Collection| c@)
}

/// Reads several collections; unknown and hidden ones are left out.
pub fn visible_collections(store: &mut CollectionStore, ids: &Vec<u64>, actor: &Option<Actor>) -> (r:
    Vec<Collection>)
    requires
        old(store).wf(),
    ensures
        final(store).wf(),
        final(store)@ == old(store)@,
        views_of(r@) == visible_among(old(store)@, ids@, reader(*actor)),
{
    let viewer = read_identity(actor);
    let ghost s = store@;
    let mut out: Vec<Collection> = Vec::new();
    let mut i: usize = 0;
    while i < ids.len()
        invariant
            store.wf(),
            store@ == s,
            i <= ids.len(),
            viewer == reader(*actor),
            views_of(out@) == visible_among(s, ids@.subrange(0, i as int), viewer),
        decreases ids.len() - i,
    {
        let ghost pre = ids@.subrange(0, i as int);
        let ghost next = ids@.subrange(0, i + 1);
        assert(next.drop_last() =~= pre);
        let ghost before = out@;
        if let Some(c) = store.get(ids[i]) {
            if is_authorized_collection(&c, &viewer) {
                out.push(c);
                assert(views_of(out@) =~= views_of(before).push(s.collections[ids@[i as int]]));
            }
        }
        i = i + 1;
    }
    assert(ids@.subrange(0, ids.len() as int) =~= ids@);
    out
}

/// The collection `c` after an accepted edit: each field given replaces the
/// stored one (a title without its surrounding white space), and a project
/// list replaces the whole membership.
pub open spec fn edited(c: CollectionView, edit: EditCollection, s: StoreModel) -> CollectionView {
    CollectionView {
        title: match edit.title {
            Some(t) => trimmed_of(t@),
            None => c.title,
        },
        description: match edit.description {
            Some(d) => d@,
            None => c.description,
        },
        status: match edit.status {
            Some(st) => st,
            None => c.status,
        },
        projects: match edit.new_projects {
            Some(p) => resolved_ids(strs_view(p@), s.projects),
            None => c.projects,
        },
        ..c
    }
}

/// What an edit request does to the repository, or why it is refused.
pub open spec fn edit_outcome(
    s: StoreModel,
    actor: Option<Actor>,
    info: Seq<char>,
    edit: EditCollection,
) -> Result<StoreModel, ApiError> {
    match scope_gate(actor, Scope::CollectionWrite) {
        Err(e) => Err(e),
        Ok(a) => if !edit.spec_valid() {
            Err(ApiError::Validation)
        } else {
            match access_gate(s, a, info) {
                Err(e) => Err(e),
                Ok(id) => {
                    let c = s.collections[id];
                    if edit.status matches Some(st) && !may_set_status(a.role, c.status, st) {
                        Err(ApiError::Forbidden)
                    } else if edit.new_projects matches Some(p) && !all_resolve(
                        strs_view(p@),
                        s.projects,
                    ) {
                        Err(ApiError::ReferencedEntityMissing)
                    } else {
                        Ok(
                            StoreModel {
                                collections: s.collections.insert(id, edited(c, edit, s)),
                                ..s
                            },
                        )
                    }
                },
            }
        },
    }
}

/// Edits a collection: every check runs before the first change, so a
/// refused edit changes nothing.
pub fn collection_edit(
    store: &mut CollectionStore,
    actor: &Option<Actor>,
    info: &str,
    edit: &EditCollection,
) -> (r: Result<(), ApiError>)
    requires
        old(store).wf(),
    ensures
        final(store).wf(),
        match edit_outcome(old(store)@, *actor, info@, *edit) {
            Ok(v) => r is Ok && final(store)@ == v,
            Err(e) => r == Err::<(), ApiError>(e) && final(store)@ == old(store)@,
        },
{
    let a = check_scope(actor, Scope::CollectionWrite)?;
    edit.validate()?;
    let c = authorize_write(store, &a, info)?;
    let ghost s = store@;
    let id = c.id;
    if let Some(st) = edit.status {
        if !status_change_allowed(a.role, c.status, st) {
            return Err(ApiError::Forbidden);
        }
    }
    let mut new_links: Option<Vec<u64>> = None;
    if let Some(p) = &edit.new_projects {
        let (ids, all) = resolve_projects(store, p);
        if !all {
            return Err(ApiError::ReferencedEntityMissing);
        }
        new_links = Some(ids);
    }
    let title = match &edit.title {
        Some(t) => trim(t.as_str()),
        None => c.title.clone(),
    };
    let description = match &edit.description {
        Some(d) => d.clone(),
        None => c.description.clone(),
    };
    let status = match edit.status {
        Some(st) => st,
        None => c.status,
    };
    let row = CollectionRow {
        id,
        user_id: c.user_id,
        title,
        description,
        status,
        icon_url: clone_opt_str(&c.icon_url),
        color: c.color,
        created: c.created,
        updated: c.updated,
    };
    store.update_row(row);
    match new_links {
        Some(ids) => {
            store.replace_links(id, ids);
        },
        None => {},
    }
    assert(store@.collections =~= s.collections.insert(id, edited(s.collections[id], *edit, s)));
    Ok(())
}

/// What a delete request does to the repository, or why it is refused.
pub open spec fn delete_outcome(s: StoreModel, actor: Option<Actor>, info: Seq<char>) -> Result<
    StoreModel,
    ApiError,
> {
    match scope_gate(actor, Scope::CollectionDelete) {
        Err(e) => Err(e),
        Ok(a) => match access_gate(s, a, info) {
            Err(e) => Err(e),
            Ok(id) => Ok(StoreModel { collections: s.collections.remove(id), ..s }),
        },
    }
}

/// Deletes a collection with all its membership links.
pub fn collection_delete(store: &mut CollectionStore, actor: &Option<Actor>, info: &str) -> (r:
    Result<(), ApiError>)
    requires
        old(store).wf(),
    ensures
        final(store).wf(),
        match delete_outcome(old(store)@, *actor, info@) {
            Ok(v) => r is Ok && final(store)@ == v && (parse_id(info@) matches Some(id)
                && !final(store).has_links(id)),
            Err(e) => r == Err::<(), ApiError>(e) && final(store)@ == old(store)@,
        },
{
    let a = check_scope(actor, Scope::CollectionDelete)?;
    let c = authorize_write(store, &a, info)?;
    if store.remove(c.id) {
        Ok(())
    } else {
        Err(ApiError::NotFound)
    }
}

/// The strings of a JSON array of strings, or `None` when the text is not one.
pub uninterp spec fn json_strings_of(s: Seq<char>) -> Option<Seq<Seq<char>>>;

/// Relies on `serde_json::from_str::<Vec<String>>`: the strings of a JSON
/// array of strings; any parse error becomes `None`.
#[verifier::external_body]
fn parse_json_strings(s: &str) -> (r: Option<Vec<String>>)
    ensures
        match r {
            Some(v) => json_strings_of(s@) == Some(strs_view(v@)),
            None => json_strings_of(s@) is None,
        },
{
    serde_json::from_str::<Vec<String>>(s).ok()
}

/// The identifiers the texts denote, when each is one.
pub open spec fn decoded_ids(ts: Seq<Seq<char>>) -> Option<Seq<u64>> {
    if forall|i: int| 0 <= i < ts.len() ==> (#[trigger] parse_id(ts[i])) is Some {
        Some(Seq::new(ts.len(), |i: int| parse_id(ts[i]).unwrap()))
    } else {
        None
    }
}

/// Reads each text as a base-62 identifier.
pub fn decode_ids(list: &Vec<String>) -> (r: Result<Vec<u64>, ApiError>)
    ensures
        match decoded_ids(strs_view(list@)) {
            Some(ids) => r is Ok && r->Ok_0@ == ids,
            None => r == Err::<Vec<u64>, ApiError>(ApiError::Validation),
        },
{
    let ghost ts = strs_view(list@);
    let mut out: Vec<u64> = Vec::new();
    let mut i: usize = 0;
    while i < list.len()
        invariant
            i <= list.len(),
            ts == strs_view(list@),
            out@.len() == i,
            forall|j: int| 0 <= j < i ==> (#[trigger] parse_id(ts[j])) == Some(out@[j]),
        decreases list.len() - i,
    {
        match parse_base62(list[i].as_str()) {
            Ok(id) => {
                out.push(id);
            },
            Err(_) => {
                assert(parse_id(ts[i as int]) is None);
                return Err(ApiError::Validation);
            },
        }
        i = i + 1;
    }
    assert(out@ =~= Seq::new(ts.len(), |i: int| parse_id(ts[i]).unwrap()));
    Ok(out)
}

/// Reads the collections named by a JSON array of identifiers; unknown and
/// hidden ones are left out.
pub fn collections_get(store: &mut CollectionStore, actor: &Option<Actor>, ids: &CollectionIds) -> (r:
    Result<Vec<Collection>, ApiError>)
    requires
        old(store).wf(),
    ensures
        final(store).wf(),
        final(store)@ == old(store)@,
        match json_strings_of(ids.ids@) {
            Some(ts) => match decoded_ids(ts) {
                Some(v) => r is Ok && views_of(r->Ok_0@) == visible_among(
                    old(store)@,
                    v,
                    reader(*actor),
                ),
                None => r == Err::<Vec<Collection>, ApiError>(ApiError::Validation),
            },
            None => r == Err::<Vec<Collection>, ApiError>(ApiError::Validation),
        },
{
    let list = match parse_json_strings(ids.ids.as_str()) {
        Some(l) => l,
        None => {
            return Err(ApiError::Validation);
        },
    };
    let v = decode_ids(&list)?;
    Ok(visible_collections(store, &v, actor))
}

} // verus!
