//! The collection repository: rows, membership links, known projects, and a
//! read cache kept coherent with the rows.
//!
//! Every change drops the cache entry of the collection it touched after the
//! change itself is in place, so a read never refills the cache from a state
//! that is about to be replaced.
use vstd::prelude::*;
use std::collections::{HashMap, HashSet};
use crate::model::{Collection, CollectionRow, CollectionView};

verus! {

broadcast use vstd::std_specs::hash::group_hash_axioms;

/// Abstract state of a repository.
pub ghost struct StoreModel {
    /// Every stored collection, joined with its membership links.
    pub collections: Map<u64, CollectionView>,
    /// Identifiers of the projects that exist.
    pub projects: Set<u64>,
    /// The identifier the next created collection receives.
    pub next_id: u64,
}

pub struct CollectionStore {
    rows: HashMap<u64, CollectionRow>,
    links: HashMap<u64, Vec<u64>>,
    projects: HashSet<u64>,
    cache: HashMap<u64, Collection>,
    next_id: u64,
}

impl View for CollectionStore {
    type V = StoreModel;

    closed spec fn view(&self) -> StoreModel {
        StoreModel {
            collections: Map::new(
                |k: u64| self.rows@.contains_key(k),
                |k: u64| self.rows@[k].with_projects(self.links@[k]@),
            ),
            projects: self.projects@,
            next_id: self.next_id,
        }
    }
}

impl CollectionStore {
    /// Rows and links describe the same collections, identifiers lie below
    /// the next one handed out, links hold no pair twice, and every cache
    /// entry equals the stored collection.
    pub closed spec fn wf(&self) -> bool {
        &&& self.rows@.dom() == self.links@.dom()
        &&& forall|k: u64| #[trigger]
            self.rows@.contains_key(k) ==> self.rows@[k].id == k && k < self.next_id
        &&& forall|k: u64| #[trigger]
            self.links@.contains_key(k) ==> self.links@[k]@.no_duplicates()
        &&& forall|k: u64| #[trigger]
            self.cache@.contains_key(k) ==> self.rows@.contains_key(k) && self.cache@[k]@
                == self.rows@[k].with_projects(self.links@[k]@)
    }

    /// The cache holds an entry for `id`.
    pub closed spec fn is_cached(&self, id: u64) -> bool {
        self.cache@.contains_key(id)
    }

    /// Some membership link of collection `id` is stored.
    pub closed spec fn has_links(&self, id: u64) -> bool {
        self.links@.contains_key(id) && self.links@[id]@.len() > 0
    }

    pub fn new() -> (r: CollectionStore)
        ensures
            r.wf(),
            r@.collections == Map::<u64, CollectionView>::empty(),
            r@.projects == Set::<u64>::empty(),
            r@.next_id == 1,
    {
        let r = CollectionStore {
            rows: HashMap::new(),
            links: HashMap::new(),
            projects: HashSet::new(),
            cache: HashMap::new(),
            next_id: 1,
        };
        assert(r@.collections =~= Map::<u64, CollectionView>::empty());
        r
    }

    /// Records that project `id` exists.
    pub fn add_project(&mut self, id: u64)
        requires
            old(self).wf(),
        ensures
            final(self).wf(),
            final(self)@ == (StoreModel { projects: old(self)@.projects.insert(id), ..old(self)@ }),
    {
        self.projects.insert(id);
        assert(self@.collections =~= old(self)@.collections);
    }

    pub fn has_project(&self, id: u64) -> (r: bool)
        ensures
            r == self@.projects.contains(id),
    {
        self.projects.contains(&id)
    }

    /// Cache-first lookup; a miss reads the row and its links and fills the cache.
    pub fn get(&mut self, id: u64) -> (r: Option<Collection>)
        requires
            old(self).wf(),
        ensures
            final(self).wf(),
            final(self)@ == old(self)@,
            match r {
                Some(c) => old(self)@.collections.contains_key(id) && c@
                    == old(self)@.collections[id] && c.id == id && final(self).is_cached(id),
                None => !old(self)@.collections.contains_key(id),
            },
    {
        if let Some(c) = self.cache.get(&id) {
            return Some(c.copied());
        }
        let fresh = match self.rows.get(&id) {
            Some(row) => {
                let projects = self.links.get(&id).unwrap();
                row.materialize(projects)
            },
            None => {
                return None;
            },
        };
        let r = fresh.copied();
        self.cache.insert(id, fresh);
        assert(self@.collections =~= old(self)@.collections);
        Some(r)
    }

    /// Drops the cache entry of `id`; the next read goes to the rows.
    pub fn invalidate_cache(&mut self, id: u64)
        requires
            old(self).wf(),
        ensures
            final(self).wf(),
            final(self)@ == old(self)@,
            !final(self).is_cached(id),
    {
        self.cache.remove(&id);
        assert(self@.collections =~= old(self)@.collections);
    }

    /// Hands out a fresh identifier, or `None` once they are used up.
    pub fn allocate_id(&mut self) -> (r: Option<u64>)
        requires
            old(self).wf(),
        ensures
            final(self).wf(),
            old(self)@.next_id == u64::MAX ==> r is None && final(self)@ == old(self)@,
            old(self)@.next_id < u64::MAX ==> r == Some(old(self)@.next_id) && final(self)@ == (
            StoreModel { next_id: (old(self)@.next_id + 1) as u64, ..old(self)@ }),
            r matches Some(id) ==> !final(self)@.collections.contains_key(id),
    {
        if self.next_id == u64::MAX {
            return None;
        }
        let id = self.next_id;
        self.next_id = self.next_id + 1;
        assert(self@.collections =~= old(self)@.collections);
        Some(id)
    }

    /// Stores a new row with its links.
    pub fn insert(&mut self, row: CollectionRow, projects: Vec<u64>)
        requires
            old(self).wf(),
            !old(self)@.collections.contains_key(row.id),
            row.id < old(self)@.next_id,
            projects@.no_duplicates(),
        ensures
            final(self).wf(),
            final(self)@ == (StoreModel {
                collections: old(self)@.collections.insert(row.id, row.with_projects(projects@)),
                ..old(self)@
            }),
    {
        let ghost v = row.with_projects(projects@);
        let id = row.id;
        self.rows.insert(id, row);
        self.links.insert(id, projects);
        self.cache.remove(&id);
        assert(self.rows@.dom() =~= self.links@.dom());
        assert(self@.collections =~= old(self)@.collections.insert(id, v));
    }

    /// Replaces the row of an existing collection, keeping its links, and
    /// drops its cache entry.
    pub fn update_row(&mut self, row: CollectionRow)
        requires
            old(self).wf(),
            old(self)@.collections.contains_key(row.id),
        ensures
            final(self).wf(),
            !final(self).is_cached(row.id),
            final(self)@ == (StoreModel {
                collections: old(self)@.collections.insert(
                    row.id,
                    row.with_projects(old(self)@.collections[row.id].projects),
                ),
                ..old(self)@
            }),
    {
        let ghost v = row.with_projects(old(self)@.collections[row.id].projects);
        let id = row.id;
        self.rows.insert(id, row);
        self.cache.remove(&id);
        assert(self.rows@.dom() =~= self.links@.dom());
        assert(self@.collections =~= old(self)@.collections.insert(id, v));
    }

    /// Replaces the whole membership of an existing collection and drops its
    /// cache entry.
    pub fn replace_links(&mut self, id: u64, projects: Vec<u64>)
        requires
            old(self).wf(),
            old(self)@.collections.contains_key(id),
            projects@.no_duplicates(),
        ensures
            final(self).wf(),
            !final(self).is_cached(id),
            final(self)@ == (StoreModel {
                collections: old(self)@.collections.insert(
                    id,
                    CollectionView { projects: projects@, ..old(self)@.collections[id] },
                ),
                ..old(self)@
            }),
    {
        let ghost v = CollectionView { projects: projects@, ..old(self)@.collections[id] };
        self.links.insert(id, projects);
        self.cache.remove(&id);
        assert(self.rows@.dom() =~= self.links@.dom());
        assert(self@.collections =~= old(self)@.collections.insert(id, v));
    }

    /// Deletes the membership links and the row of `id`, and drops its cache
    /// entry; tells whether a row existed.
    pub fn remove(&mut self, id: u64) -> (r: bool)
        requires
            old(self).wf(),
        ensures
            final(self).wf(),
            r == old(self)@.collections.contains_key(id),
            !final(self).is_cached(id),
            !final(self).has_links(id),
            final(self)@ == (StoreModel {
                collections: old(self)@.collections.remove(id),
                ..old(self)@
            }),
    {
        self.links.remove(&id);
        let existed = self.rows.remove(&id);
        self.cache.remove(&id);
        assert(self@.collections =~= old(self)@.collections.remove(id));
        existed.is_some()
    }
}

} // verus!
