//! Resolving requested project identifiers against the projects that exist.
use vstd::prelude::*;
use crate::base62::{base62_value, is_base62, parse_base62};
use crate::store::CollectionStore;

verus! {

/// The identifier a text denotes, when it is a base-62 number that fits.
pub open spec fn parse_id(t: Seq<char>) -> Option<u64> {
    if is_base62(t) && base62_value(t) <= u64::MAX {
        Some(base62_value(t) as u64)
    } else {
        None
    }
}

/// The existing project a text names, if any.
pub open spec fn resolve(t: Seq<char>, known: Set<u64>) -> Option<u64> {
    match parse_id(t) {
        Some(id) => if known.contains(id) {
            Some(id)
        } else {
            None
        },
        None => None,
    }
}

pub open spec fn strs_view(v: Seq<String>) -> Seq<Seq<char>> {
    v.map_values(|s: String| s@)
}

/// Every text names an existing project.
pub open spec fn all_resolve(ts: Seq<Seq<char>>, known: Set<u64>) -> bool {
    forall|i: int| 0 <= i < ts.len() ==> (#[trigger] resolve(ts[i], known)) is Some
}

/// The projects the texts name, in order of first mention, each once; texts
/// naming no existing project are left out.
pub open spec fn resolved_ids(ts: Seq<Seq<char>>, known: Set<u64>) -> Seq<u64>
    decreases ts.len(),
{
    if ts.len() == 0 {
        Seq::empty()
    } else {
        let prev = resolved_ids(ts.drop_last(), known);
        match resolve(ts.last(), known) {
            Some(id) => if prev.contains(id) {
                prev
            } else {
                prev.push(id)
            },
            None => prev,
        }
    }
}

pub fn vec_contains(v: &Vec<u64>, x: u64) -> (r: bool)
    ensures
        r == v@.contains(x),
{
    let mut i: usize = 0;
    while i < v.len()
        invariant
            i <= v.len(),
            forall|j: int| 0 <= j < i ==> v@[j] != x,
        decreases v.len() - i,
    {
        if v[i] == x {
            return true;
        }
        i = i + 1;
    }
    false
}

/// Looks each text up as a project identifier. Returns the projects found,
/// as `resolved_ids` orders them, and whether every text named one.
pub fn resolve_projects(store: &CollectionStore, list: &Vec<String>) -> (r: (Vec<u64>, bool))
    ensures
        r.0@ == resolved_ids(strs_view(list@), store@.projects),
        r.0@.no_duplicates(),
        r.1 == all_resolve(strs_view(list@), store@.projects),
{
    let ghost ts = strs_view(list@);
    let ghost known = store@.projects;
    let mut out: Vec<u64> = Vec::new();
    let mut all: bool = true;
    let mut i: usize = 0;
    while i < list.len()
        invariant
            i <= list.len(),
            ts == strs_view(list@),
            known == store@.projects,
            out@ == resolved_ids(ts.subrange(0, i as int), known),
            out@.no_duplicates(),
            all == (forall|j: int| 0 <= j < i ==> (#[trigger] resolve(ts[j], known)) is Some),
        decreases list.len() - i,
    {
        let ghost pre = ts.subrange(0, i as int);
        let ghost next = ts.subrange(0, i + 1);
        assert(next.drop_last() =~= pre);
        assert(next.last() == list@[i as int]@);
        let found = match parse_base62(list[i].as_str()) {
            Ok(id) => if store.has_project(id) {
                Some(id)
            } else {
                None
            },
            Err(_) => None,
        };
        assert(found == resolve(ts[i as int], known));
        match found {
            Some(id) => {
                if !vec_contains(&out, id) {
                    out.push(id);
                }
            },
            None => {
                all = false;
            },
        }
        i = i + 1;
    }
    assert(ts.subrange(0, list.len() as int) =~= ts);
    (out, all)
}

} // verus!
