use collections_core::base62::{parse_base62, to_base62, DecodingError};
use collections_core::icons::{
    collection_icon_edit, commit_collection_icon, delete_collection_icon, icon_blob_path,
    MAX_ICON_BYTES,
};
use collections_core::model::{Actor, ApiError, CollectionStatus, Role, Scopes};
use collections_core::routes::{
    collection_create, collection_delete, collection_edit, collection_get, collections_get,
    create_collection_at, decode_ids,
};
use collections_core::store::CollectionStore;
use collections_core::validate::{
    get_image_content_type, CollectionCreateData, CollectionIds, EditCollection, Extension,
};

const ALL: Scopes = Scopes { create: true, read: true, write: true, delete: true };

fn user(id: u64) -> Option<Actor> {
    Some(Actor { id, role: Role::Developer, scopes: ALL })
}

fn moderator(id: u64) -> Option<Actor> {
    Some(Actor { id, role: Role::Moderator, scopes: ALL })
}

fn data(title: &str, description: &str, projects: &[&str]) -> CollectionCreateData {
    CollectionCreateData {
        title: title.to_string(),
        description: description.to_string(),
        projects: projects.iter().map(|p| p.to_string()).collect(),
    }
}

fn no_edit() -> EditCollection {
    EditCollection { title: None, description: None, status: None, new_projects: None }
}

fn projects_edit(ids: &[&str]) -> EditCollection {
    EditCollection {
        new_projects: Some(ids.iter().map(|p| p.to_string()).collect()),
        ..no_edit()
    }
}

/// A store knowing projects 1, 2 and 3 (base 62: "1", "2", "3").
fn store_with_projects() -> CollectionStore {
    let mut s = CollectionStore::new();
    s.add_project(1);
    s.add_project(2);
    s.add_project(3);
    s
}

fn set_status(store: &mut CollectionStore, id: &str, st: CollectionStatus) {
    let e = EditCollection { status: Some(st), ..no_edit() };
    collection_edit(store, &moderator(99), id, &e).unwrap();
}

#[test]
fn base62_digits_and_errors() {
    assert_eq!(parse_base62(""), Ok(0));
    assert_eq!(parse_base62("1"), Ok(1));
    assert_eq!(parse_base62("Z"), Ok(35));
    assert_eq!(parse_base62("a"), Ok(36));
    assert_eq!(parse_base62("z"), Ok(61));
    assert_eq!(parse_base62("10"), Ok(62));
    assert_eq!(parse_base62("a-b"), Err(DecodingError::InvalidBase62('-')));
    assert_eq!(parse_base62("zzzzzzzzzzzzz"), Err(DecodingError::Overflow));
    assert_eq!(parse_base62("LygHa16AHYF"), Ok(u64::MAX));
    assert_eq!(parse_base62("LygHa16AHYG"), Err(DecodingError::Overflow));
}

#[test]
fn base62_text_of_numbers() {
    assert_eq!(to_base62(0), "0");
    assert_eq!(to_base62(35), "Z");
    assert_eq!(to_base62(61), "z");
    assert_eq!(to_base62(62), "10");
    assert_eq!(to_base62(u64::MAX), "LygHa16AHYF");
    for n in [1u64, 7, 3843, 3844, 1 << 40, u64::MAX - 1] {
        assert_eq!(parse_base62(&to_base62(n)), Ok(n));
    }
}

#[test]
fn cache_invalidation_keeps_reads_exact() {
    let mut s = store_with_projects();
    create_collection_at(&mut s, &user(7), &data("Abc", "Def", &["1"]), 0).unwrap();
    assert_eq!(collection_get(&mut s, &None, "1").unwrap().projects, vec![1]);
    s.invalidate_cache(1);
    assert_eq!(collection_get(&mut s, &None, "1").unwrap().projects, vec![1]);
    assert_eq!(collection_edit(&mut s, &user(7), "1", &projects_edit(&["2"])), Ok(()));
    assert_eq!(collection_get(&mut s, &None, "1").unwrap().projects, vec![2]);
}

#[test]
fn create_then_get_round_trip() {
    let mut s = store_with_projects();
    let c = create_collection_at(&mut s, &user(7), &data("My mods", "Things I use", &["1", "2"]), 1000)
        .unwrap();
    assert_eq!(c.id, 1);
    assert_eq!(c.user_id, 7);
    assert_eq!(c.created, 1000);
    assert_eq!(c.updated, 1000);
    assert_eq!(c.icon_url, None);
    assert_eq!(c.color, None);
    let g = collection_get(&mut s, &None, "1").unwrap();
    assert_eq!(g.title, "My mods");
    assert_eq!(g.description, "Things I use");
    assert_eq!(g.status, CollectionStatus::Listed);
    assert_eq!(g.projects, vec![1, 2]);
    // a second read is served from the cache and agrees
    let g2 = collection_get(&mut s, &user(8), "1").unwrap();
    assert_eq!(g2.projects, vec![1, 2]);
    assert_eq!(g2.title, "My mods");
}

#[test]
fn create_stamps_current_time() {
    let mut s = CollectionStore::new();
    let c = collection_create(&mut s, &user(1), &data("Abc", "Def", &[])).unwrap();
    assert!(c.created > 1_600_000_000);
    assert_eq!(c.created, c.updated);
}

#[test]
fn create_drops_unknown_and_repeated_projects() {
    let mut s = store_with_projects();
    let c = create_collection_at(&mut s, &user(7), &data("Abc", "Def", &["3", "9", "1", "3", "x-y"]), 5)
        .unwrap();
    assert_eq!(c.projects, vec![3, 1]);
}

#[test]
fn create_validation() {
    let mut s = store_with_projects();
    let a = user(1);
    assert_eq!(create_collection_at(&mut s, &a, &data("ab", "Def", &[]), 0).unwrap_err(), ApiError::Validation);
    assert_eq!(create_collection_at(&mut s, &a, &data("   ", "Def", &[]), 0).unwrap_err(), ApiError::Validation);
    let long_title = "t".repeat(65);
    assert_eq!(create_collection_at(&mut s, &a, &data(&long_title, "Def", &[]), 0).unwrap_err(), ApiError::Validation);
    let long_desc = "d".repeat(256);
    assert_eq!(create_collection_at(&mut s, &a, &data("Abc", &long_desc, &[]), 0).unwrap_err(), ApiError::Validation);
    let many: Vec<&str> = vec!["1"; 33];
    assert_eq!(create_collection_at(&mut s, &a, &data("Abc", "Def", &many), 0).unwrap_err(), ApiError::Validation);
    // edge values are accepted
    let ok_title = "é".repeat(64);
    let ok_desc = "d".repeat(255);
    let limit: Vec<&str> = vec!["1"; 32];
    let c = create_collection_at(&mut s, &a, &data(&ok_title, &ok_desc, &limit), 0).unwrap();
    assert_eq!(c.projects, vec![1]);
    assert_eq!(c.id, 1);
}

#[test]
fn create_needs_credential_and_scope() {
    let mut s = CollectionStore::new();
    let d = data("Abc", "Def", &[]);
    assert_eq!(create_collection_at(&mut s, &None, &d, 0).unwrap_err(), ApiError::Unauthenticated);
    let no_create = Some(Actor { id: 1, role: Role::Developer, scopes: Scopes { create: false, ..ALL } });
    assert_eq!(create_collection_at(&mut s, &no_create, &d, 0).unwrap_err(), ApiError::Forbidden);
    assert_eq!(collection_get(&mut s, &None, "1").unwrap_err(), ApiError::NotFound);
}

#[test]
fn replace_membership_twice_is_idempotent() {
    let mut s = store_with_projects();
    create_collection_at(&mut s, &user(7), &data("Abc", "Def", &["1"]), 0).unwrap();
    let e = projects_edit(&["2", "3", "2"]);
    assert_eq!(collection_edit(&mut s, &user(7), "1", &e), Ok(()));
    let first = collection_get(&mut s, &user(7), "1").unwrap().projects;
    assert_eq!(first, vec![2, 3]);
    assert_eq!(collection_edit(&mut s, &user(7), "1", &e), Ok(()));
    let second = collection_get(&mut s, &user(7), "1").unwrap().projects;
    assert_eq!(first, second);
}

#[test]
fn unscoped_actor_cannot_edit_or_delete_private() {
    let mut s = store_with_projects();
    create_collection_at(&mut s, &user(7), &data("Abc", "Def", &["1"]), 0).unwrap();
    set_status(&mut s, "1", CollectionStatus::Private);
    let weak = Some(Actor { id: 7, role: Role::Developer, scopes: Scopes { write: false, delete: false, ..ALL } });
    let e = EditCollection { title: Some("Changed".to_string()), ..projects_edit(&["2"]) };
    assert_eq!(collection_edit(&mut s, &weak, "1", &e), Err(ApiError::Forbidden));
    assert_eq!(collection_delete(&mut s, &weak, "1"), Err(ApiError::Forbidden));
    assert_eq!(collection_edit(&mut s, &None, "1", &e), Err(ApiError::Unauthenticated));
    // a stranger with every scope sees nothing to change
    assert_eq!(collection_edit(&mut s, &user(8), "1", &e), Err(ApiError::NotFound));
    assert_eq!(collection_delete(&mut s, &user(8), "1"), Err(ApiError::NotFound));
    let after = collection_get(&mut s, &moderator(99), "1").unwrap();
    assert_eq!(after.title, "Abc");
    assert_eq!(after.projects, vec![1]);
    assert_eq!(after.status, CollectionStatus::Private);
}

#[test]
fn stranger_cannot_edit_public_collection() {
    let mut s = store_with_projects();
    create_collection_at(&mut s, &user(7), &data("Abc", "Def", &[]), 0).unwrap();
    let e = EditCollection { title: Some("Other".to_string()), ..no_edit() };
    assert_eq!(collection_edit(&mut s, &user(8), "1", &e), Err(ApiError::Forbidden));
    assert_eq!(collection_delete(&mut s, &user(8), "1"), Err(ApiError::Forbidden));
    assert_eq!(collection_get(&mut s, &None, "1").unwrap().title, "Abc");
}

#[test]
fn status_gate() {
    let mut s = store_with_projects();
    create_collection_at(&mut s, &user(7), &data("Abc", "Def", &[]), 0).unwrap();
    let approve = EditCollection { status: Some(CollectionStatus::Approved), ..no_edit() };
    assert_eq!(collection_edit(&mut s, &user(7), "1", &approve), Err(ApiError::Forbidden));
    assert_eq!(collection_get(&mut s, &user(7), "1").unwrap().status, CollectionStatus::Listed);
    let private = EditCollection { status: Some(CollectionStatus::Private), ..no_edit() };
    assert_eq!(collection_edit(&mut s, &user(7), "1", &private), Ok(()));
    assert_eq!(collection_get(&mut s, &user(7), "1").unwrap().status, CollectionStatus::Private);
    // a rejected collection cannot be moved by its owner
    set_status(&mut s, "1", CollectionStatus::Rejected);
    let listed = EditCollection { status: Some(CollectionStatus::Listed), ..no_edit() };
    assert_eq!(collection_edit(&mut s, &user(7), "1", &listed), Err(ApiError::Forbidden));
    // a moderator moves it anywhere
    for st in [CollectionStatus::Approved, CollectionStatus::Rejected, CollectionStatus::Listed, CollectionStatus::Private] {
        let e = EditCollection { status: Some(st), ..no_edit() };
        assert_eq!(collection_edit(&mut s, &moderator(99), "1", &e), Ok(()));
        assert_eq!(collection_get(&mut s, &moderator(99), "1").unwrap().status, st);
    }
}

#[test]
fn refused_status_change_applies_nothing() {
    let mut s = store_with_projects();
    create_collection_at(&mut s, &user(7), &data("Abc", "Def", &["1"]), 0).unwrap();
    let e = EditCollection {
        title: Some("New title".to_string()),
        description: Some("New description".to_string()),
        status: Some(CollectionStatus::Approved),
        new_projects: Some(vec!["2".to_string()]),
    };
    assert_eq!(collection_edit(&mut s, &user(7), "1", &e), Err(ApiError::Forbidden));
    let c = collection_get(&mut s, &user(7), "1").unwrap();
    assert_eq!(c.title, "Abc");
    assert_eq!(c.description, "Def");
    assert_eq!(c.projects, vec![1]);
}

#[test]
fn edit_fields_and_trim_title() {
    let mut s = store_with_projects();
    create_collection_at(&mut s, &user(7), &data("Abc", "Def", &["1"]), 0).unwrap();
    let e = EditCollection {
        title: Some("  My Title  ".to_string()),
        description: Some("Longer description".to_string()),
        ..no_edit()
    };
    assert_eq!(collection_edit(&mut s, &user(7), "1", &e), Ok(()));
    let c = collection_get(&mut s, &user(7), "1").unwrap();
    assert_eq!(c.title, "My Title");
    assert_eq!(c.description, "Longer description");
    assert_eq!(c.projects, vec![1]);
    let bad = EditCollection { description: Some("x".repeat(256)), ..no_edit() };
    assert_eq!(collection_edit(&mut s, &user(7), "1", &bad), Err(ApiError::Validation));
    let too_many = projects_edit(&vec!["1"; 65]);
    assert_eq!(collection_edit(&mut s, &user(7), "1", &too_many), Err(ApiError::Validation));
}

#[test]
fn unknown_project_fails_atomically() {
    let mut s = store_with_projects();
    create_collection_at(&mut s, &user(7), &data("Abc", "Def", &["1", "2"]), 0).unwrap();
    let e = projects_edit(&["3", "does-not-exist"]);
    assert_eq!(collection_edit(&mut s, &user(7), "1", &e), Err(ApiError::ReferencedEntityMissing));
    let e2 = projects_edit(&["3", "Z"]);
    assert_eq!(collection_edit(&mut s, &user(7), "1", &e2), Err(ApiError::ReferencedEntityMissing));
    assert_eq!(collection_get(&mut s, &user(7), "1").unwrap().projects, vec![1, 2]);
}

#[test]
fn delete_cascades() {
    let mut s = store_with_projects();
    create_collection_at(&mut s, &user(7), &data("Abc", "Def", &["1", "2"]), 0).unwrap();
    assert_eq!(collection_delete(&mut s, &user(7), "1"), Ok(()));
    assert_eq!(collection_get(&mut s, &moderator(99), "1").unwrap_err(), ApiError::NotFound);
    assert_eq!(collection_delete(&mut s, &user(7), "1"), Err(ApiError::NotFound));
    let ids = CollectionIds { ids: "[\"1\"]".to_string() };
    assert!(collections_get(&mut s, &moderator(99), &ids).unwrap().is_empty());
}

#[test]
fn moderator_may_delete() {
    let mut s = store_with_projects();
    create_collection_at(&mut s, &user(7), &data("Abc", "Def", &[]), 0).unwrap();
    set_status(&mut s, "1", CollectionStatus::Private);
    assert_eq!(collection_delete(&mut s, &moderator(99), "1"), Ok(()));
}

#[test]
fn read_visibility() {
    let mut s = store_with_projects();
    create_collection_at(&mut s, &user(7), &data("Abc", "Def", &[]), 0).unwrap();
    set_status(&mut s, "1", CollectionStatus::Private);
    assert_eq!(collection_get(&mut s, &None, "1").unwrap_err(), ApiError::NotFound);
    assert_eq!(collection_get(&mut s, &user(8), "1").unwrap_err(), ApiError::NotFound);
    assert!(collection_get(&mut s, &user(7), "1").is_ok());
    assert!(collection_get(&mut s, &moderator(99), "1").is_ok());
    // without the read capability the owner reads as anyone
    let no_read = Some(Actor { id: 7, role: Role::Developer, scopes: Scopes { read: false, ..ALL } });
    assert_eq!(collection_get(&mut s, &no_read, "1").unwrap_err(), ApiError::NotFound);
    assert_eq!(collection_get(&mut s, &user(7), "no!").unwrap_err(), ApiError::Validation);
    set_status(&mut s, "1", CollectionStatus::Approved);
    assert!(collection_get(&mut s, &None, "1").is_ok());
}

#[test]
fn list_filters_hidden_and_missing() {
    let mut s = store_with_projects();
    create_collection_at(&mut s, &user(7), &data("One", "Def", &[]), 0).unwrap();
    create_collection_at(&mut s, &user(7), &data("Two", "Def", &[]), 0).unwrap();
    set_status(&mut s, "2", CollectionStatus::Private);
    let ids = CollectionIds { ids: "[\"2\", \"1\", \"5\"]".to_string() };
    let anon: Vec<String> = collections_get(&mut s, &None, &ids).unwrap().into_iter().map(|c| c.title).collect();
    assert_eq!(anon, vec!["One".to_string()]);
    let owner: Vec<String> = collections_get(&mut s, &user(7), &ids).unwrap().into_iter().map(|c| c.title).collect();
    assert_eq!(owner, vec!["Two".to_string(), "One".to_string()]);
    let bad_json = CollectionIds { ids: "[1, 2".to_string() };
    assert_eq!(collections_get(&mut s, &None, &bad_json).unwrap_err(), ApiError::Validation);
    let bad_id = CollectionIds { ids: "[\"1\", \"?\"]".to_string() };
    assert_eq!(collections_get(&mut s, &None, &bad_id).unwrap_err(), ApiError::Validation);
    assert_eq!(decode_ids(&vec!["10".to_string(), "a".to_string()]), Ok(vec![62, 36]));
}

#[test]
fn content_types() {
    assert_eq!(get_image_content_type("png"), Some("image/png".to_string()));
    assert_eq!(get_image_content_type("jpg"), Some("image/jpeg".to_string()));
    assert_eq!(get_image_content_type("jpeg"), Some("image/jpeg".to_string()));
    assert_eq!(get_image_content_type("webp"), Some("image/webp".to_string()));
    assert_eq!(get_image_content_type("gif"), Some("image/gif".to_string()));
    assert_eq!(get_image_content_type("bmp"), Some("image/bmp".to_string()));
    assert_eq!(get_image_content_type("exe"), None);
    assert_eq!(get_image_content_type("PNG"), None);
}

#[test]
fn icon_upload_plan() {
    let mut s = store_with_projects();
    create_collection_at(&mut s, &user(7), &data("Abc", "Def", &[]), 0).unwrap();
    let png = Extension { ext: "png".to_string() };
    let plan = collection_icon_edit(&mut s, &user(7), "1", &png, &b"abc".to_vec()).unwrap();
    assert_eq!(plan.collection_id, 1);
    assert_eq!(plan.content_type, "image/png");
    assert_eq!(plan.path, "data/1/a9993e364706816aba3e25717850c26c9cd0d89d.png");
    let empty = collection_icon_edit(&mut s, &user(7), "01", &png, &Vec::new()).unwrap();
    assert_eq!(empty.path, "data/1/da39a3ee5e6b4b0d3255bfef95601890afd80709.png");
    let exe = Extension { ext: "exe".to_string() };
    assert_eq!(collection_icon_edit(&mut s, &user(7), "1", &exe, &b"abc".to_vec()).unwrap_err(), ApiError::Validation);
    assert_eq!(collection_icon_edit(&mut s, &user(8), "1", &png, &b"abc".to_vec()).unwrap_err(), ApiError::Forbidden);
    assert_eq!(collection_icon_edit(&mut s, &user(7), "2", &png, &b"abc".to_vec()).unwrap_err(), ApiError::NotFound);
}

#[test]
fn oversized_icon_is_refused() {
    let mut s = store_with_projects();
    create_collection_at(&mut s, &user(7), &data("Abc", "Def", &[]), 0).unwrap();
    let png = Extension { ext: "png".to_string() };
    let big = vec![0u8; MAX_ICON_BYTES + 1];
    assert_eq!(collection_icon_edit(&mut s, &user(7), "1", &png, &big).unwrap_err(), ApiError::Validation);
    // refused before any authorization is consulted
    assert_eq!(collection_icon_edit(&mut s, &None, "1", &png, &big).unwrap_err(), ApiError::Validation);
    let limit = vec![0u8; MAX_ICON_BYTES];
    assert!(collection_icon_edit(&mut s, &user(7), "1", &png, &limit).is_ok());
    assert_eq!(MAX_ICON_BYTES, 262144);
}

#[test]
fn icon_commit_and_delete() {
    let mut s = store_with_projects();
    create_collection_at(&mut s, &user(7), &data("Abc", "Def", &[]), 0).unwrap();
    let cdn = "https://cdn.example.org";
    assert_eq!(commit_collection_icon(&mut s, 1, cdn, "data/1/aa.png", Some(0x123456)), Ok(None));
    let c = collection_get(&mut s, &None, "1").unwrap();
    assert_eq!(c.icon_url, Some("https://cdn.example.org/data/1/aa.png".to_string()));
    assert_eq!(c.color, Some(0x123456));
    assert_eq!(
        commit_collection_icon(&mut s, 1, cdn, "data/1/bb.png", None),
        Ok(Some("data/1/aa.png".to_string()))
    );
    assert_eq!(collection_get(&mut s, &None, "1").unwrap().color, None);
    assert_eq!(commit_collection_icon(&mut s, 5, cdn, "x.png", None), Err(ApiError::NotFound));
    assert_eq!(delete_collection_icon(&mut s, &user(8), "1", cdn), Err(ApiError::Forbidden));
    assert_eq!(delete_collection_icon(&mut s, &user(7), "1", cdn), Ok(Some("data/1/bb.png".to_string())));
    let c = collection_get(&mut s, &None, "1").unwrap();
    assert_eq!(c.icon_url, None);
    assert_eq!(c.color, None);
    assert_eq!(delete_collection_icon(&mut s, &user(7), "1", cdn), Ok(None));
}

#[test]
fn blob_path_of_icon_url() {
    assert_eq!(icon_blob_path("https://cdn.x/data/1/a.png", "https://cdn.x"), Some("data/1/a.png".to_string()));
    assert_eq!(icon_blob_path("https://other/data/1/a.png", "https://cdn.x"), None);
    assert_eq!(icon_blob_path("https://cdn.x", "https://cdn.x"), None);
    assert_eq!(icon_blob_path("https://cdn.x/", "https://cdn.x"), Some(String::new()));
}
