use uptime_monitor::api_types::{
    CreateUserInput, CreateWebsiteInput, HistoryQuery, UpdateWebsiteInput,
};
use uptime_monitor::auth::{authenticate, AuthUser};
use uptime_monitor::clock::current_timestamp;
use uptime_monitor::errors::ApiError;
use uptime_monitor::monitor::{classify_failure, classify_response};
use uptime_monitor::store::Store;
use uptime_monitor::user_routes;
use uptime_monitor::website_routes;

const SECRET: &str = "test-signing-secret";

fn user_input(name: &str, password: &str) -> CreateUserInput {
    CreateUserInput { username: String::from(name), password: String::from(password) }
}

fn recent_now() -> u64 {
    // tokens are validated against the real clock, so issue them at the
    // real current time
    current_timestamp()
}

fn signed_up_and_in(store: &mut Store, name: &str, password: &str) -> AuthUser {
    user_routes::sign_up(store, user_input(name, password)).expect("sign_up should succeed");
    let session = user_routes::sign_in(store, user_input(name, password), SECRET, recent_now())
        .expect("sign_in should succeed");
    authenticate(&session.jwt, SECRET).expect("a fresh token should verify")
}

#[test]
fn sign_up_sign_in_create_list_round_trip() {
    let mut store = Store::new();
    let created = user_routes::sign_up(&mut store, user_input("alice", "pw"))
        .expect("sign_up should succeed");
    let session = user_routes::sign_in(&mut store, user_input("alice", "pw"), SECRET, recent_now())
        .expect("sign_in should succeed");
    let auth = authenticate(&session.jwt, SECRET).expect("token should verify");
    assert_eq!(auth.0, created.id);

    let website = website_routes::create_website(
        &mut store,
        CreateWebsiteInput { url: String::from("https://example.com") },
        &auth,
        1700000000,
    )
    .expect("create_website should succeed");

    let listed = website_routes::list_websites(&store, &auth).expect("list should succeed");
    assert_eq!(listed.items.len(), 1);
    assert_eq!(listed.items[0].id, website.id);
    assert_eq!(listed.items[0].url, "https://example.com");
    assert_eq!(listed.items[0].time_added, "2023-11-14T22:13:20");
}

#[test]
fn wrong_password_is_unauthorized() {
    let mut store = Store::new();
    user_routes::sign_up(&mut store, user_input("alice", "pw")).expect("sign_up should succeed");
    let r = user_routes::sign_in(&mut store, user_input("alice", "wrong"), SECRET, recent_now());
    assert_eq!(r.err(), Some(ApiError::Unauthorized));
}

#[test]
fn unknown_user_is_unauthorized() {
    let store = Store::new();
    let r = user_routes::sign_in(&store, user_input("nobody", "pw"), SECRET, recent_now());
    assert_eq!(r.err(), Some(ApiError::Unauthorized));
}

#[test]
fn duplicate_sign_up_fails() {
    let mut store = Store::new();
    user_routes::sign_up(&mut store, user_input("alice", "pw")).expect("first should succeed");
    let r = user_routes::sign_up(&mut store, user_input("alice", "pw2"));
    assert_eq!(r.err(), Some(ApiError::Internal));
}

#[test]
fn token_signed_with_other_secret_is_rejected() {
    let mut store = Store::new();
    user_routes::sign_up(&mut store, user_input("alice", "pw")).expect("sign_up should succeed");
    let session = user_routes::sign_in(&mut store, user_input("alice", "pw"), SECRET, recent_now())
        .expect("sign_in should succeed");
    let r = authenticate(&session.jwt, "another-secret");
    assert_eq!(r.err(), Some(ApiError::Unauthorized));
}

#[test]
fn tampered_token_is_rejected() {
    let mut store = Store::new();
    user_routes::sign_up(&mut store, user_input("alice", "pw")).expect("sign_up should succeed");
    let session = user_routes::sign_in(&mut store, user_input("alice", "pw"), SECRET, recent_now())
        .expect("sign_in should succeed");
    let mut tampered = session.jwt;
    tampered.push('x');
    assert_eq!(authenticate(&tampered, SECRET).err(), Some(ApiError::Unauthorized));
}

#[test]
fn expired_token_is_rejected() {
    let mut store = Store::new();
    user_routes::sign_up(&mut store, user_input("alice", "pw")).expect("sign_up should succeed");
    // issued at the epoch, so it expired one day later, decades ago
    let session = user_routes::sign_in(&mut store, user_input("alice", "pw"), SECRET, 0)
        .expect("sign_in should succeed");
    assert_eq!(authenticate(&session.jwt, SECRET).err(), Some(ApiError::Unauthorized));
}

#[test]
fn cross_tenant_read_is_forbidden() {
    let mut store = Store::new();
    let alice = signed_up_and_in(&mut store, "alice", "pw-a");
    let bob = signed_up_and_in(&mut store, "bob", "pw-b");
    let website = website_routes::create_website(
        &mut store,
        CreateWebsiteInput { url: String::from("https://example.com") },
        &alice,
        10,
    )
    .expect("create should succeed");

    let r = website_routes::get_website(&store, website.id.clone(), &bob);
    assert_eq!(r.err(), Some(ApiError::Forbidden));
    assert_eq!(ApiError::Forbidden.status_code(), 403);

    let ok = website_routes::get_website(&store, website.id, &alice).expect("owner may read");
    assert_eq!(ok.url, "https://example.com");
}

#[test]
fn absent_website_is_not_found() {
    let mut store = Store::new();
    let alice = signed_up_and_in(&mut store, "alice", "pw");
    let r = website_routes::get_website(&store, String::from("no-such-id"), &alice);
    assert_eq!(r.err(), Some(ApiError::NotFound));
    assert_eq!(ApiError::NotFound.status_code(), 404);
}

#[test]
fn url_validation_rejects_bad_submissions() {
    let mut store = Store::new();
    let alice = signed_up_and_in(&mut store, "alice", "pw");

    let empty = website_routes::create_website(
        &mut store,
        CreateWebsiteInput { url: String::new() },
        &alice,
        10,
    );
    assert_eq!(empty.err(), Some(ApiError::UrlEmpty));
    assert_eq!(ApiError::UrlEmpty.status_code(), 400);

    let schemeless = website_routes::create_website(
        &mut store,
        CreateWebsiteInput { url: String::from("example.com") },
        &alice,
        10,
    );
    assert_eq!(schemeless.err(), Some(ApiError::UrlScheme));
    assert_eq!(ApiError::UrlScheme.status_code(), 400);

    let website = website_routes::create_website(
        &mut store,
        CreateWebsiteInput { url: String::from("https://ok.example") },
        &alice,
        10,
    )
    .expect("valid url should be accepted");
    let bad_update = website_routes::update_website(
        &mut store,
        website.id,
        UpdateWebsiteInput { url: String::from("ftp://x") },
        &alice,
    );
    assert_eq!(bad_update.err(), Some(ApiError::UrlScheme));
}

#[test]
fn update_and_delete_by_non_owner_are_not_found() {
    let mut store = Store::new();
    let alice = signed_up_and_in(&mut store, "alice", "pw-a");
    let bob = signed_up_and_in(&mut store, "bob", "pw-b");
    let website = website_routes::create_website(
        &mut store,
        CreateWebsiteInput { url: String::from("https://example.com") },
        &alice,
        10,
    )
    .expect("create should succeed");

    let upd = website_routes::update_website(
        &mut store,
        website.id.clone(),
        UpdateWebsiteInput { url: String::from("https://evil.example") },
        &bob,
    );
    assert_eq!(upd.err(), Some(ApiError::NotFound));
    let del = website_routes::delete_website(&mut store, website.id.clone(), &bob);
    assert_eq!(del.err(), Some(ApiError::NotFound));

    let still = website_routes::get_website(&store, website.id.clone(), &alice)
        .expect("row should be unchanged");
    assert_eq!(still.url, "https://example.com");

    let deleted = website_routes::delete_website(&mut store, website.id, &alice)
        .expect("owner delete should succeed");
    assert!(deleted.success);
    assert_eq!(deleted.message, "Website deleted successfully");
}

#[test]
fn on_demand_check_updates_status_and_appends_history() {
    let mut store = Store::new();
    let alice = signed_up_and_in(&mut store, "alice", "pw");
    let website = website_routes::create_website(
        &mut store,
        CreateWebsiteInput { url: String::from("https://example.com") },
        &alice,
        1700000000,
    )
    .expect("create should succeed");

    let url = website_routes::check_now_begin(&store, website.id.clone(), &alice)
        .expect("owner may trigger a check");
    assert_eq!(url, "https://example.com");

    let result = classify_response(200, 5);
    let out = website_routes::check_now_commit(&mut store, website.id.clone(), result, 1700000042)
        .expect("commit should succeed");
    assert!(out.is_up);
    assert_eq!(out.status_code, Some(200));
    assert_eq!(out.response_time_ms, Some(5));
    assert_eq!(out.error_message, None);

    let status = website_routes::get_website_status(&store, website.id.clone(), &alice)
        .expect("status should be readable");
    assert_eq!(status.is_up, Some(true));
    assert_eq!(status.last_checked.as_deref(), Some("2023-11-14T22:14:02"));
    assert_eq!(status.last_down_time, None);
    assert_eq!(status.response_time_ms, Some(5));

    let history = website_routes::get_website_history(
        &store,
        website.id,
        &alice,
        HistoryQuery { limit: Some(10), offset: None },
    )
    .expect("history should be readable");
    assert_eq!(history.items.len(), 1);
    assert_eq!(history.items[0].checked_at, "2023-11-14T22:14:02");
    assert!(history.items[0].is_up);
    assert_eq!(history.items[0].status_code, Some(200));
}

#[test]
fn down_classification_is_recorded_with_http_message() {
    let mut store = Store::new();
    let alice = signed_up_and_in(&mut store, "alice", "pw");
    let website = website_routes::create_website(
        &mut store,
        CreateWebsiteInput { url: String::from("https://example.com") },
        &alice,
        100,
    )
    .expect("create should succeed");

    let result = classify_response(500, 9);
    let out = website_routes::check_now_commit(&mut store, website.id.clone(), result, 200)
        .expect("commit should succeed");
    assert!(!out.is_up);
    assert_eq!(out.status_code, Some(500));
    assert_eq!(out.error_message.as_deref(), Some("HTTP 500"));

    let status = website_routes::get_website_status(&store, website.id.clone(), &alice)
        .expect("status should be readable");
    assert_eq!(status.is_up, Some(false));
    assert_eq!(status.last_down_time.as_deref(), Some("1970-01-01T00:03:20"));

    let history = website_routes::get_website_history(
        &store,
        website.id,
        &alice,
        HistoryQuery { limit: None, offset: None },
    )
    .expect("history should be readable");
    assert_eq!(history.items[0].error_message.as_deref(), Some("HTTP 500"));
}

#[test]
fn timeout_classification_has_no_status_code() {
    let mut store = Store::new();
    let alice = signed_up_and_in(&mut store, "alice", "pw");
    let website = website_routes::create_website(
        &mut store,
        CreateWebsiteInput { url: String::from("https://slow.example") },
        &alice,
        100,
    )
    .expect("create should succeed");

    let result = classify_failure(String::from("operation timed out"), 10000);
    let out = website_routes::check_now_commit(&mut store, website.id.clone(), result, 200)
        .expect("commit should succeed");
    assert!(!out.is_up);
    assert_eq!(out.status_code, None);
    assert_eq!(out.response_time_ms, Some(10000));
    assert_eq!(out.error_message.as_deref(), Some("operation timed out"));

    let status = website_routes::get_website_status(&store, website.id, &alice)
        .expect("status should be readable");
    assert_eq!(status.is_up, Some(false));
}

#[test]
fn check_of_vanished_website_is_internal_error() {
    let mut store = Store::new();
    let alice = signed_up_and_in(&mut store, "alice", "pw");
    let result = classify_response(200, 1);
    let r = website_routes::check_now_commit(&mut store, String::from("gone"), result, 10);
    assert_eq!(r.err(), Some(ApiError::Internal));
    assert_eq!(ApiError::Internal.status_code(), 500);
    assert_eq!(ApiError::Unauthorized.status_code(), 401);
    let _ = alice;
}

#[test]
fn history_pagination_through_the_handler() {
    let mut store = Store::new();
    let alice = signed_up_and_in(&mut store, "alice", "pw");
    let website = website_routes::create_website(
        &mut store,
        CreateWebsiteInput { url: String::from("https://example.com") },
        &alice,
        1,
    )
    .expect("create should succeed");
    for t in [1000u64, 2000, 3000] {
        let result = classify_response(200, 1);
        website_routes::check_now_commit(&mut store, website.id.clone(), result, t)
            .expect("commit should succeed");
    }

    let newest_two = website_routes::get_website_history(
        &store,
        website.id.clone(),
        &alice,
        HistoryQuery { limit: Some(2), offset: Some(0) },
    )
    .expect("history should be readable");
    assert_eq!(newest_two.items.len(), 2);
    assert_eq!(newest_two.items[0].checked_at, "1970-01-01T00:50:00");
    assert_eq!(newest_two.items[1].checked_at, "1970-01-01T00:33:20");

    let next_page = website_routes::get_website_history(
        &store,
        website.id,
        &alice,
        HistoryQuery { limit: Some(2), offset: Some(2) },
    )
    .expect("history should be readable");
    assert_eq!(next_page.items.len(), 1);
    assert_eq!(next_page.items[0].checked_at, "1970-01-01T00:16:40");
}
