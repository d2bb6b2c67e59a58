use travel_guides::error::{internal_error, Error};
use travel_guides::handlers::{
    check_body_len, create_guide, delete_guide, get_guide, get_guides, guide_from_request,
    merge_update, update_guide, update_guide_at, BODY_LIMIT,
};
use travel_guides::models::{CreateGuideRequest, Guide, Section, UpdateGuideRequest};
use travel_guides::store::Store;

fn section(title: &str, content: &str, kind: &str) -> Section {
    Section { title: title.to_string(), content: content.to_string(), section_type: kind.to_string() }
}

fn request(title: &str, image: &str, tags: &[&str], content: Vec<Section>) -> CreateGuideRequest {
    CreateGuideRequest {
        title: title.to_string(),
        main_image: image.to_string(),
        tags: tags.iter().map(|t| t.to_string()).collect(),
        content,
    }
}

fn sample_guide(id: u128, created: i64, updated: i64) -> Guide {
    Guide {
        id,
        title: "Old".to_string(),
        main_image: "old.jpg".to_string(),
        tags: vec!["a".to_string()],
        content: vec![section("Day 1", "Walk", "text")],
        created_at: created,
        updated_at: updated,
    }
}

fn empty_update() -> UpdateGuideRequest {
    UpdateGuideRequest { title: None, main_image: None, tags: None, content: None }
}

#[test]
fn create_then_get_returns_same_record() {
    let mut store = Store::new();
    let req = request("Trip A", "a.jpg", &["beach"], vec![section("S", "B", "text")]);
    let created = create_guide(&mut store, 10, req).unwrap();
    let got = get_guide(&store, created.id).unwrap();
    assert_eq!(got.id, created.id);
    assert_eq!(got.title, "Trip A");
    assert_eq!(got.main_image, "a.jpg");
    assert_eq!(got.tags, vec!["beach".to_string()]);
    assert_eq!(got.content.len(), 1);
    assert_eq!(got.content[0].title, "S");
    assert_eq!(got.content[0].content, "B");
    assert_eq!(got.content[0].section_type, "text");
    assert_eq!(got.created_at, created.created_at);
    assert_eq!(got.updated_at, created.updated_at);
    assert_eq!(created.created_at, created.updated_at);
}

#[test]
fn creates_give_distinct_identities() {
    let mut store = Store::new();
    let mut ids = Vec::new();
    for i in 0..50 {
        let g = store.create_guide(sample_guide(0, i, i)).unwrap();
        ids.push(g.id);
    }
    let mut sorted = ids.clone();
    sorted.sort();
    sorted.dedup();
    assert_eq!(sorted.len(), 50);
    assert_eq!(store.get_guides().len(), 50);
}

#[test]
fn create_ignores_supplied_identity() {
    let mut store = Store::new();
    let g = store.create_guide(sample_guide(7, 1, 1)).unwrap();
    let h = store.create_guide(sample_guide(7, 1, 1)).unwrap();
    assert_ne!(g.id, h.id);
}

#[test]
fn insert_with_taken_identity_fails_and_changes_nothing() {
    let mut store = Store::new();
    store.insert_with_id(5, 1, sample_guide(0, 1, 1)).unwrap();
    let r = store.insert_with_id(5, 2, sample_guide(0, 2, 2));
    assert!(matches!(r, Err(Error::InternalServerError(_))));
    let all = store.get_guides();
    assert_eq!(all.len(), 1);
    assert_eq!(all[0].created_at, 1);
}

#[test]
fn list_keeps_insertion_order() {
    let mut store = Store::new();
    store.insert_with_id(3, 1, sample_guide(0, 1, 1)).unwrap();
    store.insert_with_id(1, 2, sample_guide(0, 2, 2)).unwrap();
    store.insert_with_id(2, 3, sample_guide(0, 3, 3)).unwrap();
    let ids: Vec<u128> = get_guides(&store).iter().map(|g| g.id).collect();
    assert_eq!(ids, vec![3, 1, 2]);
}

#[test]
fn title_only_update_keeps_other_fields() {
    let current = sample_guide(9, 100, 150);
    let req = UpdateGuideRequest { title: Some("New".to_string()), ..empty_update() };
    let r = merge_update(&current, req, 200);
    assert_eq!(r.id, 9);
    assert_eq!(r.title, "New");
    assert_eq!(r.main_image, "old.jpg");
    assert_eq!(r.tags, vec!["a".to_string()]);
    assert_eq!(r.content.len(), 1);
    assert_eq!(r.content[0].content, "Walk");
    assert_eq!(r.created_at, 100);
    assert_eq!(r.updated_at, 200);
}

#[test]
fn update_time_never_goes_back() {
    let current = sample_guide(9, 100, 300);
    let r = merge_update(&current, empty_update(), 200);
    assert_eq!(r.updated_at, 300);
    let r = merge_update(&current, empty_update(), 400);
    assert_eq!(r.updated_at, 400);
}

#[test]
fn create_stamps_times_and_ignores_supplied_ones() {
    let mut store = Store::new();
    let g = store.create_guide(sample_guide(0, 5, 9)).unwrap();
    assert_eq!(g.created_at, g.updated_at);
    assert!(g.created_at > 1_000_000_000_000_000);
}

#[test]
fn update_time_never_before_creation() {
    let current = sample_guide(9, 100, 100);
    let r = merge_update(&current, empty_update(), 40);
    assert_eq!(r.updated_at, 100);
    assert_eq!(r.created_at, 100);
}

#[test]
fn update_in_store_replaces_record() {
    let mut store = Store::new();
    store.insert_with_id(4, 10, sample_guide(0, 10, 10)).unwrap();
    let req = UpdateGuideRequest { tags: Some(vec!["x".to_string(), "y".to_string()]), ..empty_update() };
    let g = update_guide_at(&mut store, 4, 20, req, 30).unwrap();
    assert_eq!(g.tags, vec!["x".to_string(), "y".to_string()]);
    let got = store.get_guide(4).unwrap();
    assert_eq!(got.tags, vec!["x".to_string(), "y".to_string()]);
    assert_eq!(got.title, "Old");
    assert_eq!(got.created_at, 10);
    assert_eq!(got.updated_at, 30);
}

#[test]
fn update_unknown_is_not_found() {
    let mut store = Store::new();
    let r = update_guide(&mut store, 77, 10, empty_update());
    assert!(matches!(r, Err(Error::GuideNotFound)));
}

#[test]
fn update_oversized_is_invalid_input() {
    let mut store = Store::new();
    store.insert_with_id(4, 10, sample_guide(0, 10, 10)).unwrap();
    let req = UpdateGuideRequest { title: Some("T".to_string()), ..empty_update() };
    let r = update_guide_at(&mut store, 4, BODY_LIMIT + 1, req, 30);
    assert!(matches!(r, Err(Error::InvalidInput(_))));
    assert_eq!(store.get_guide(4).unwrap().title, "Old");
}

#[test]
fn store_update_keeps_identity() {
    let mut store = Store::new();
    store.insert_with_id(4, 10, sample_guide(0, 10, 10)).unwrap();
    let g = store.update_guide(4, sample_guide(99, 10, 12)).unwrap();
    assert_eq!(g.id, 4);
    assert!(store.get_guide(99).is_err());
    assert_eq!(store.get_guide(4).unwrap().updated_at, 12);
}

#[test]
fn delete_then_get_is_not_found() {
    let mut store = Store::new();
    let g = store.create_guide(sample_guide(0, 1, 1)).unwrap();
    delete_guide(&mut store, g.id).unwrap();
    assert!(matches!(get_guide(&store, g.id), Err(Error::GuideNotFound)));
    assert!(matches!(delete_guide(&mut store, g.id), Err(Error::GuideNotFound)));
}

#[test]
fn delete_unknown_is_not_found() {
    let mut store = Store::new();
    store.insert_with_id(1, 1, sample_guide(0, 1, 1)).unwrap();
    assert!(matches!(store.delete_guide(2), Err(Error::GuideNotFound)));
    assert_eq!(store.get_guides().len(), 1);
}

#[test]
fn oversized_create_is_rejected_before_storing() {
    let mut store = Store::new();
    let req = request("Big", "b.jpg", &[], vec![]);
    let r = create_guide(&mut store, 16 * 1024 + 1, req);
    assert!(matches!(r, Err(Error::InvalidInput(_))));
    assert_eq!(store.get_guides().len(), 0);
}

#[test]
fn body_limit_boundary() {
    assert_eq!(BODY_LIMIT, 16384);
    assert!(check_body_len(0).is_ok());
    assert!(check_body_len(16384).is_ok());
    assert!(matches!(check_body_len(16385), Err(Error::InvalidInput(_))));
}

#[test]
fn list_size_is_creates_minus_deletes() {
    let mut store = Store::new();
    let mut ids = Vec::new();
    for i in 0..10 {
        ids.push(store.create_guide(sample_guide(0, i, i)).unwrap().id);
    }
    for id in ids.iter().take(4) {
        store.delete_guide(*id).unwrap();
    }
    assert!(store.delete_guide(ids[0]).is_err());
    assert_eq!(store.get_guides().len(), 6);
}

#[test]
fn guide_from_request_stamps_both_times() {
    let g = guide_from_request(request("T", "i.jpg", &["t"], vec![]));
    assert_eq!(g.id, 0);
    assert_eq!(g.created_at, 0);
    assert_eq!(g.title, "T");
    assert_eq!(g.tags, vec!["t".to_string()]);
}

#[test]
fn create_get_update_delete_example() {
    let mut store = Store::new();
    let req = request("Trip A", "a.jpg", &["beach"], vec![]);
    let created = create_guide(&mut store, 60, req).unwrap();
    let got = get_guide(&store, created.id).unwrap();
    assert_eq!(got.title, "Trip A");
    assert_eq!(got.main_image, "a.jpg");
    assert_eq!(got.tags, vec!["beach".to_string()]);
    assert!(got.content.is_empty());
    let upd = UpdateGuideRequest { tags: Some(vec!["beach".to_string(), "sun".to_string()]), ..empty_update() };
    let updated = update_guide(&mut store, created.id, 30, upd).unwrap();
    assert_eq!(updated.tags, vec!["beach".to_string(), "sun".to_string()]);
    assert_eq!(updated.title, "Trip A");
    assert_eq!(updated.created_at, created.created_at);
    delete_guide(&mut store, created.id).unwrap();
    let e = get_guide(&store, created.id).unwrap_err();
    assert_eq!(e.status_code(), 404);
}

#[test]
fn error_status_and_messages() {
    assert_eq!(Error::GuideNotFound.status_code(), 404);
    assert_eq!(Error::GuideNotFound.message(), "Guide not found");
    let bad = Error::InvalidInput("x".to_string());
    assert_eq!(bad.status_code(), 400);
    assert_eq!(bad.message(), "Invalid input: x");
    let e = internal_error();
    assert_eq!(e.status_code(), 500);
    assert_eq!(e.message(), "Internal server error: Internal server error");
}
