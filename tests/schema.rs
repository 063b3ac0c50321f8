use perse::components::ViewList;
use perse::errors::{ErrorTypes, PerseError, SuccessResponse};
use perse::route::{RouteProbe, RouteStep};
use perse::schema::{CreateView, PerseView, ViewVisibilityTypes};

fn request() -> CreateView {
    CreateView {
        visibility: ViewVisibilityTypes::VisibilityUnlisted,
        title: "About Me".to_string(),
        content_body: None,
        content_head: Some("<meta>".to_string()),
        description: None,
        route: "about-me".to_string(),
        is_homepage: Some("on".to_string()),
    }
}

#[test]
fn error_message_carries_status_tag() {
    let e = PerseError::new(ErrorTypes::InternalError, "boom");
    assert_eq!(e.message(), "[Perse Error] (500) boom");
    assert_eq!(PerseError::new(ErrorTypes::Conflict, "x").message(), "[Perse Error] (409) x");
    assert_eq!(PerseError::new(ErrorTypes::Validation, "").message(), "[Perse Error] (400) ");
    assert_eq!(PerseError::new(ErrorTypes::NotFound, "gone").message(), "[Perse Error] (404) gone");
    assert_eq!(e.error_type(), ErrorTypes::InternalError);
}

#[test]
fn success_response_holds_data() {
    let r = SuccessResponse::new("{\"id\":1}");
    assert!(r.success);
    assert_eq!(r.data, "{\"id\":1}");
}

#[test]
fn visibility_names_round_trip() {
    for v in [
        ViewVisibilityTypes::VisibilityPublic,
        ViewVisibilityTypes::VisibilityUnlisted,
        ViewVisibilityTypes::VisibilityHidden,
    ] {
        assert_eq!(ViewVisibilityTypes::parse(v.as_str()).unwrap(), v);
    }
    assert_eq!(ViewVisibilityTypes::VisibilityHidden.as_str(), "VisibilityHidden");
}

#[test]
fn malformed_visibility_is_a_conflict() {
    let e = ViewVisibilityTypes::parse("visibility_public").unwrap_err();
    assert_eq!(e.error_type(), ErrorTypes::Conflict);
    assert!(ViewVisibilityTypes::parse("").is_err());
    assert!(ViewVisibilityTypes::parse("VisibilityPublicX").is_err());
}

#[test]
fn default_view_is_hidden_and_empty() {
    let v = PerseView::default();
    assert_eq!(v.visibility, ViewVisibilityTypes::VisibilityHidden);
    assert!(v.id.is_none());
    assert!(v.title.is_empty());
    assert!(v.route.is_empty());
    assert!(!v.is_homepage);
}

#[test]
fn view_from_request() {
    let v = PerseView::from(request());
    assert_eq!(v.id, None);
    assert_eq!(v.visibility, ViewVisibilityTypes::VisibilityUnlisted);
    assert_eq!(v.title, "About Me");
    assert_eq!(v.content_head.as_deref(), Some("<meta>"));
    assert_eq!(v.route, "about-me");
    assert!(v.is_homepage);
    let mut r = request();
    r.is_homepage = None;
    assert!(!PerseView::from(r).is_homepage);
}

#[test]
fn validation_lists_every_bad_field() {
    let mut r = request();
    assert!(r.validate().is_ok());
    r.title = String::new();
    r.description = Some(String::new());
    r.route = "x".repeat(300);
    let e = r.validate().unwrap_err();
    assert_eq!(e.error_type(), ErrorTypes::Validation);
    assert_eq!(
        e.message(),
        "[Perse Error] (400) Fields out of length bounds: title description route"
    );
}

#[test]
fn validation_counts_characters_not_bytes() {
    let mut r = request();
    r.title = "日".repeat(255);
    assert!(r.validate().is_ok());
    r.title = "日".repeat(256);
    assert!(r.validate().is_err());
}

#[test]
fn route_probe_steps() {
    let p = RouteProbe::new("about-me");
    let p = match p.step(3) {
        RouteStep::Next(p) => p,
        _ => panic!("expected the next candidate"),
    };
    assert_eq!(p.candidate, "about-me-");
    assert_eq!(p.attempts, 1);
    match p.step(0) {
        RouteStep::Found(r) => assert_eq!(r, "about-me-"),
        _ => panic!("expected the candidate to be used"),
    }
    let last = RouteProbe { candidate: "x---------".to_string(), attempts: 9 };
    assert!(matches!(last.step(1), RouteStep::Exhausted));
}

#[test]
fn listing_text() {
    let mut v = PerseView::from(request());
    assert_eq!(ViewList::link_href(&v), "/about-me");
    assert_eq!(ViewList::link_text(&v), "/about-me (About Me), (Unlisted), (Homepage)");
    v.is_homepage = false;
    v.visibility = ViewVisibilityTypes::VisibilityPublic;
    assert_eq!(ViewList::link_text(&v), "/about-me (About Me), (Public)");
}
