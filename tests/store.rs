use perse::errors::ErrorTypes;
use perse::schema::{CreateView, ViewVisibilityTypes};
use perse::store::{StoreOp, ViewStore};

fn candidate(title: &str, route: &str, homepage: bool) -> CreateView {
    CreateView {
        visibility: ViewVisibilityTypes::VisibilityPublic,
        title: title.to_string(),
        content_body: Some("It was a bright cold day in April".to_string()),
        content_head: None,
        description: Some("A page".to_string()),
        route: route.to_string(),
        is_homepage: if homepage { Some("on".to_string()) } else { None },
    }
}

fn hidden(title: &str, route: &str) -> CreateView {
    let mut c = candidate(title, route, false);
    c.visibility = ViewVisibilityTypes::VisibilityHidden;
    c
}

#[test]
fn same_route_twice_gets_a_hyphen() {
    let mut store = ViewStore::new();
    let first = store.create_view(&candidate("About Me", "about-me", false), 100).unwrap();
    let second = store.create_view(&candidate("About Me", "about-me", false), 101).unwrap();
    assert_eq!(first.route, "about-me");
    assert_eq!(second.route, "about-me-");
    assert_eq!(store.get_all().len(), 2);
}

#[test]
fn new_homepage_replaces_the_old_one() {
    let mut store = ViewStore::new();
    let a = store.create_view(&candidate("A", "a", true), 1).unwrap();
    let b = store.create_view(&candidate("B", "b", true), 2).unwrap();
    let home = store.get_homepage_view().unwrap();
    assert_eq!(home.id, b.id);
    assert_eq!(home.route, "b");
    let old_a = store.get_by_uuid(a.id.unwrap()).unwrap();
    assert!(!old_a.is_homepage);
    let homepages = store.get_all().iter().filter(|v| v.is_homepage).count();
    assert_eq!(homepages, 1);
}

#[test]
fn hidden_view_is_not_found_by_route() {
    let mut store = ViewStore::new();
    store.create_view(&hidden("Secret", "secret"), 5).unwrap();
    let err = store.get_view_by_route("secret").unwrap_err();
    assert_eq!(err.error_type(), ErrorTypes::NotFound);
    assert_eq!(store.get_all().len(), 1);
}

#[test]
fn ten_collisions_exhaust_the_budget() {
    let mut store = ViewStore::new();
    for k in 0..10 {
        let v = store.create_view(&candidate("Page", "page", false), k).unwrap();
        assert_eq!(v.route, format!("page{}", "-".repeat(k as usize)));
    }
    let calls_before = store.calls();
    let err = store.create_view(&candidate("Page", "page", false), 10).unwrap_err();
    assert_eq!(err.error_type(), ErrorTypes::InternalError);
    assert!(err.message().contains("unique route"));
    assert_eq!(store.get_all().len(), 10);
    assert!(store.calls() > calls_before);
}

#[test]
fn routes_stay_unique_across_many_creations() {
    let mut store = ViewStore::new();
    for k in 0..6 {
        store.create_view(&candidate("Page", "page", false), k).unwrap();
        store.create_view(&candidate("Other", "other", false), k).unwrap();
    }
    let all = store.get_all();
    let mut routes: Vec<String> = all.iter().map(|v| v.route.clone()).collect();
    routes.sort();
    routes.dedup();
    assert_eq!(routes.len(), all.len());
}

#[test]
fn failed_homepage_set_rolls_back() {
    let mut store = ViewStore::new();
    let a = store.create_view(&candidate("A", "a", true), 1).unwrap();
    store.fail_next(StoreOp::SetHomepage);
    let err = store.create_view(&candidate("B", "b", true), 2).unwrap_err();
    assert_eq!(err.error_type(), ErrorTypes::InternalError);
    let all = store.get_all();
    assert_eq!(all.len(), 1);
    assert_eq!(all[0].id, a.id);
    assert!(all[0].is_homepage);
    assert_eq!(store.get_homepage_view().unwrap().id, a.id);
    assert_eq!(store.get_view_by_route("b").unwrap_err().error_type(), ErrorTypes::NotFound);
}

#[test]
fn failed_homepage_clear_rolls_back() {
    let mut store = ViewStore::new();
    store.create_view(&candidate("A", "a", true), 1).unwrap();
    store.fail_next(StoreOp::ClearHomepage);
    assert!(store.create_view(&candidate("B", "b", true), 2).is_err());
    assert_eq!(store.get_all().len(), 1);
    assert_eq!(store.get_homepage_view().unwrap().route, "a");
    // The fault is spent: the same request now succeeds.
    let b = store.create_view(&candidate("B", "b", true), 3).unwrap();
    assert_eq!(store.get_homepage_view().unwrap().id, b.id);
}

#[test]
fn failed_commit_and_insert_leave_no_row() {
    let mut store = ViewStore::new();
    store.fail_next(StoreOp::Commit);
    assert_eq!(
        store.create_view(&candidate("A", "a", false), 1).unwrap_err().error_type(),
        ErrorTypes::InternalError
    );
    store.fail_next(StoreOp::Insert);
    assert!(store.create_view(&candidate("A", "a", false), 1).is_err());
    store.fail_next(StoreOp::Begin);
    assert!(store.create_view(&candidate("A", "a", false), 1).is_err());
    store.fail_next(StoreOp::CountRoute);
    assert!(store.create_view(&candidate("A", "a", false), 1).is_err());
    assert_eq!(store.get_all().len(), 0);
}

#[test]
fn empty_title_fails_before_any_store_call() {
    let mut store = ViewStore::new();
    let err = store.create_view(&candidate("", "about", false), 1).unwrap_err();
    assert_eq!(err.error_type(), ErrorTypes::Validation);
    assert_eq!(store.calls(), 0);
    assert_eq!(store.get_all().len(), 0);
}

#[test]
fn overlong_route_is_a_validation_error() {
    let mut store = ViewStore::new();
    let long = "r".repeat(256);
    let err = store.create_view(&candidate("Title", &long, false), 1).unwrap_err();
    assert_eq!(err.error_type(), ErrorTypes::Validation);
    assert_eq!(err.message(), "[Perse Error] (400) Fields out of length bounds: route");
    let ok = store.create_view(&candidate("Title", &"r".repeat(255), false), 1).unwrap();
    assert_eq!(ok.route.chars().count(), 255);
}

#[test]
fn created_view_carries_store_fields() {
    let mut store = ViewStore::new();
    let v = store.create_view(&candidate("About Me", "about-me", false), 1700000000).unwrap();
    assert_eq!(v.id, Some(1));
    assert_eq!(v.created_at, Some(1700000000));
    assert_eq!(v.updated_at, Some(1700000000));
    assert_eq!(v.title, "About Me");
    assert_eq!(v.description.as_deref(), Some("A page"));
    assert_eq!(v.content_head, None);
    assert!(!v.is_homepage);
    let w = store.create_view(&candidate("Next", "next", false), 1).unwrap();
    assert_eq!(w.id, Some(2));
}

#[test]
fn lookup_by_route_finds_public_view() {
    let mut store = ViewStore::new();
    store.create_view(&candidate("About", "about", false), 1).unwrap();
    let v = store.get_view_by_route("about").unwrap();
    assert_eq!(v.title, "About");
    assert_eq!(store.get_view_by_route("").unwrap_err().error_type(), ErrorTypes::NotFound);
    assert_eq!(store.get_view_by_route("missing").unwrap_err().error_type(), ErrorTypes::NotFound);
}

#[test]
fn unlisted_homepage_is_not_served() {
    let mut store = ViewStore::new();
    let mut c = candidate("Home", "home", true);
    c.visibility = ViewVisibilityTypes::VisibilityUnlisted;
    let v = store.create_view(&c, 1).unwrap();
    assert!(v.is_homepage);
    assert_eq!(store.get_homepage_view().unwrap_err().error_type(), ErrorTypes::NotFound);
}

#[test]
fn no_homepage_until_one_is_flagged() {
    let mut store = ViewStore::new();
    assert_eq!(store.get_homepage_view().unwrap_err().error_type(), ErrorTypes::NotFound);
    store.create_view(&candidate("A", "a", false), 1).unwrap();
    assert!(store.get_homepage_view().is_err());
    store.create_view(&candidate("B", "b", true), 2).unwrap();
    store.create_view(&candidate("C", "c", false), 3).unwrap();
    assert_eq!(store.get_homepage_view().unwrap().route, "b");
}

#[test]
fn get_all_lists_homepage_first() {
    let mut store = ViewStore::new();
    store.create_view(&candidate("A", "a", false), 1).unwrap();
    store.create_view(&candidate("B", "b", false), 2).unwrap();
    store.create_view(&candidate("C", "c", true), 3).unwrap();
    store.create_view(&candidate("D", "d", false), 4).unwrap();
    let routes: Vec<String> = store.get_all().iter().map(|v| v.route.clone()).collect();
    assert_eq!(routes, vec!["c", "a", "b", "d"]);
}

#[test]
fn lookup_by_id_text() {
    let mut store = ViewStore::new();
    store.create_view(&candidate("A", "a", false), 1).unwrap();
    store.create_view(&candidate("B", "b", false), 2).unwrap();
    let v = store.get_by_id("00000000-0000-0000-0000-000000000002").unwrap();
    assert_eq!(v.route, "b");
    let v = store.get_by_id("00000000000000000000000000000001").unwrap();
    assert_eq!(v.route, "a");
    let missing = store.get_by_id("00000000-0000-0000-0000-000000000003").unwrap_err();
    assert_eq!(missing.error_type(), ErrorTypes::NotFound);
    let bad = store.get_by_id("not-a-uuid").unwrap_err();
    assert_eq!(bad.error_type(), ErrorTypes::InternalError);
}
