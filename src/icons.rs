//! Icon uploads and removals, kept consistent with the blob store: an upload
//! is planned (checked, hashed, placed), performed by the caller, then
//! committed; the blob an icon replaced or lost is handed back for a
//! best-effort delete.
use vstd::prelude::*;
use crate::auth::{check_scope, scope_gate};
use crate::base62::{base62_text, to_base62};
use crate::model::{clone_opt_str, opt_str_view, Actor, ApiError, CollectionRow, CollectionView, Scope};
use crate::routes::{access_gate, authorize_write};
use crate::store::{CollectionStore, StoreModel};
use crate::validate::{get_image_content_type, image_content_type, Extension};

verus! {

/// Largest icon accepted, in bytes (256 KiB).
pub const MAX_ICON_BYTES: usize = 262144;

/// Lower-case hexadecimal SHA-1 digest of some bytes.
pub uninterp spec fn sha1_hex_of(b: Seq<u8>) -> Seq<char>;

/// Relies on `sha1::Sha1::from(..).hexdigest()`: the 40 lower-case hex
/// digits of the SHA-1 digest of the bytes.
#[verifier::external_body]
fn sha1_hex(b: &Vec<u8>) -> (r: String)
    ensures
        r@ == sha1_hex_of(b@),
        r@.len() == 40,
{
    sha1::Sha1::from(b.as_slice()).hexdigest()
}

/// Where an icon's bytes are stored: under the collection's base-62
/// identifier, named by their digest, with the file's extension.
pub open spec fn icon_path(id: u64, hash: Seq<char>, ext: Seq<char>) -> Seq<char> {
    "data/"@ + base62_text(id as nat) + "/"@ + hash + "."@ + ext
}

/// The blob path inside a stored icon URL, when the URL lies under `cdn`.
pub open spec fn blob_path(url: Seq<char>, cdn: Seq<char>) -> Option<Seq<char>> {
    let p = cdn + "/"@;
    if p.len() <= url.len() && url.subrange(0, p.len() as int) == p {
        Some(url.subrange(p.len() as int, url.len() as int))
    } else {
        None
    }
}

/// An accepted upload: what to store, where, for which collection.
#[derive(Debug)]
pub struct IconUpload {
    pub collection_id: u64,
    pub content_type: String,
    pub path: String,
}

/// Why an upload request is refused, checked in this order: extension, size,
/// capability, then the collection itself.
pub open spec fn icon_check(
    s: StoreModel,
    actor: Option<Actor>,
    info: Seq<char>,
    ext: Seq<char>,
    size: nat,
) -> Result<u64, ApiError> {
    if image_content_type(ext) is None {
        Err(ApiError::Validation)
    } else if size > MAX_ICON_BYTES {
        Err(ApiError::Validation)
    } else {
        match scope_gate(actor, Scope::CollectionWrite) {
            Err(e) => Err(e),
            Ok(a) => access_gate(s, a, info),
        }
    }
}

/// Plans an icon upload. Nothing is uploaded unless this succeeds; in
/// particular an oversized payload is refused before any hashing or storage.
pub fn collection_icon_edit(
    store: &mut CollectionStore,
    actor: &Option<Actor>,
    info: &str,
    ext: &Extension,
    bytes: &Vec<u8>,
) -> (r: Result<IconUpload, ApiError>)
    requires
        old(store).wf(),
    ensures
        final(store).wf(),
        final(store)@ == old(store)@,
        bytes@.len() > MAX_ICON_BYTES ==> r == Err::<IconUpload, ApiError>(ApiError::Validation),
        match icon_check(old(store)@, *actor, info@, ext.ext@, bytes@.len()) {
            Ok(id) => r is Ok && r->Ok_0.collection_id == id && Some(r->Ok_0.content_type@)
                == image_content_type(ext.ext@) && r->Ok_0.path@ == icon_path(
                id,
                sha1_hex_of(bytes@),
                ext.ext@,
            ),
            Err(e) => r == Err::<IconUpload, ApiError>(e),
        },
{
    let content_type = match get_image_content_type(ext.ext.as_str()) {
        Some(t) => t,
        None => {
            return Err(ApiError::Validation);
        },
    };
    if bytes.len() > MAX_ICON_BYTES {
        return Err(ApiError::Validation);
    }
    let a = check_scope(actor, Scope::CollectionWrite)?;
    let c = authorize_write(store, &a, info)?;
    let hash = sha1_hex(bytes);
    let id_text = to_base62(c.id);
    let path = String::from_str("data/").concat(id_text.as_str()).concat("/").concat(
        hash.as_str(),
    ).concat(".").concat(ext.ext.as_str());
    Ok(IconUpload { collection_id: c.id, content_type, path })
}

/// The blob path inside `url`, when it lies under `cdn`.
pub fn icon_blob_path(url: &str, cdn: &str) -> (r: Option<String>)
    ensures
        opt_str_view(r) == blob_path(url@, cdn@),
{
    let prefix = String::from_str(cdn).concat("/");
    let plen = prefix.as_str().unicode_len();
    let ulen = url.unicode_len();
    if plen > ulen {
        return None;
    }
    let mut i: usize = 0;
    while i < plen
        invariant
            plen == prefix@.len(),
            prefix@ == cdn@ + "/"@,
            ulen == url@.len(),
            plen <= ulen,
            i <= plen,
            forall|j: int| 0 <= j < i ==> url@[j] == prefix@[j],
        decreases plen - i,
    {
        if url.get_char(i) != prefix.as_str().get_char(i) {
            assert(url@.subrange(0, plen as int)[i as int] != prefix@[i as int]);
            assert(url@.subrange(0, plen as int) != prefix@);
            return None;
        }
        i = i + 1;
    }
    assert(url@.subrange(0, plen as int) =~= prefix@);
    Some(String::from_str(url.substring_char(plen, ulen)))
}

/// The stored collection with its icon set to `icon_url` and `color`.
pub open spec fn with_icon(c: CollectionView, icon_url: Option<Seq<char>>, color: Option<u32>) -> CollectionView {
    CollectionView { icon_url, color, ..c }
}

/// The blob an icon change leaves behind, to be deleted on a best-effort basis.
pub open spec fn old_blob(c: CollectionView, cdn: Seq<char>) -> Option<Seq<char>> {
    match c.icon_url {
        Some(u) => blob_path(u, cdn),
        None => None,
    }
}

/// Records an uploaded icon, stored as `file_name` under `cdn`, on
/// collection `id`; returns the blob of the icon it replaces.
pub fn commit_collection_icon(
    store: &mut CollectionStore,
    id: u64,
    cdn: &str,
    file_name: &str,
    color: Option<u32>,
) -> (r: Result<Option<String>, ApiError>)
    requires
        old(store).wf(),
    ensures
        final(store).wf(),
        old(store)@.collections.contains_key(id) ==> r is Ok && opt_str_view(r->Ok_0) == old_blob(
            old(store)@.collections[id],
            cdn@,
        ) && final(store)@ == (StoreModel {
            collections: old(store)@.collections.insert(
                id,
                with_icon(old(store)@.collections[id], Some(cdn@ + "/"@ + file_name@), color),
            ),
            ..old(store)@
        }),
        !old(store)@.collections.contains_key(id) ==> r == Err::<Option<String>, ApiError>(
            ApiError::NotFound,
        ) && final(store)@ == old(store)@,
{
    let url = String::from_str(cdn).concat("/").concat(file_name);
    set_icon(store, id, Some(url), color, cdn)
}

fn set_icon(
    store: &mut CollectionStore,
    id: u64,
    icon_url: Option<String>,
    color: Option<u32>,
    cdn: &str,
) -> (r: Result<Option<String>, ApiError>)
    requires
        old(store).wf(),
    ensures
        final(store).wf(),
        old(store)@.collections.contains_key(id) ==> r is Ok && opt_str_view(r->Ok_0) == old_blob(
            old(store)@.collections[id],
            cdn@,
        ) && final(store)@ == (StoreModel {
            collections: old(store)@.collections.insert(
                id,
                with_icon(old(store)@.collections[id], opt_str_view(icon_url), color),
            ),
            ..old(store)@
        }),
        !old(store)@.collections.contains_key(id) ==> r == Err::<Option<String>, ApiError>(
            ApiError::NotFound,
        ) && final(store)@ == old(store)@,
{
    let c = match store.get(id) {
        Some(c) => c,
        None => {
            return Err(ApiError::NotFound);
        },
    };
    let ghost s = store@;
    let old_path = match &c.icon_url {
        Some(u) => icon_blob_path(u.as_str(), cdn),
        None => None,
    };
    let row = CollectionRow {
        id,
        user_id: c.user_id,
        title: c.title,
        description: c.description,
        status: c.status,
        icon_url,
        color,
        created: c.created,
        updated: c.updated,
    };
    store.update_row(row);
    assert(store@.collections =~= s.collections.insert(
        id,
        with_icon(s.collections[id], opt_str_view(icon_url), color),
    ));
    Ok(old_path)
}

/// What removing an icon does, or why it is refused.
pub open spec fn clear_icon_outcome(s: StoreModel, actor: Option<Actor>, info: Seq<char>) -> Result<
    u64,
    ApiError,
> {
    match scope_gate(actor, Scope::CollectionWrite) {
        Err(e) => Err(e),
        Ok(a) => access_gate(s, a, info),
    }
}

/// Removes a collection's icon and color; returns the blob that held the
/// icon, to be deleted on a best-effort basis.
pub fn delete_collection_icon(
    store: &mut CollectionStore,
    actor: &Option<Actor>,
    info: &str,
    cdn: &str,
) -> (r: Result<Option<String>, ApiError>)
    requires
        old(store).wf(),
    ensures
        final(store).wf(),
        match clear_icon_outcome(old(store)@, *actor, info@) {
            Ok(id) => r is Ok && opt_str_view(r->Ok_0) == old_blob(
                old(store)@.collections[id],
                cdn@,
            ) && final(store)@ == (StoreModel {
                collections: old(store)@.collections.insert(
                    id,
                    with_icon(old(store)@.collections[id], None, None),
                ),
                ..old(store)@
            }),
            Err(e) => r == Err::<Option<String>, ApiError>(e) && final(store)@ == old(store)@,
        },
{
    let a = check_scope(actor, Scope::CollectionWrite)?;
    let c = authorize_write(store, &a, info)?;
    set_icon(store, c.id, None, None, cdn)
}

} // verus!
