use uptime_monitor::monitor::{classify_failure, classify_response};
use uptime_monitor::store::Store;
use uptime_monitor::worker::record_probe_outcome;

fn store_with_website() -> (Store, String) {
    let mut store = Store::new();
    let uid = store
        .sign_up(String::from("alice"), String::from("not-a-real-hash"))
        .expect("sign_up should succeed");
    let w = store
        .create_website(uid, String::from("https://example.com"), 1)
        .expect("create_website should succeed");
    (store, w.id)
}

#[test]
fn repeated_cycles_accumulate_history() {
    let (mut store, id) = store_with_website();
    let first = classify_response(200, 4);
    record_probe_outcome(&mut store, id.clone(), &first, 100);
    let second = classify_response(503, 7);
    record_probe_outcome(&mut store, id.clone(), &second, 200);

    let rows = store.get_website_history(id.clone(), 50, 0).expect("history should be readable");
    assert_eq!(rows.len(), 2);
    assert_eq!(rows[0].checked_at, 200);
    assert!(!rows[0].is_up);
    assert_eq!(rows[0].error_message.as_deref(), Some("HTTP 503"));
    assert_eq!(rows[1].checked_at, 100);
    assert!(rows[1].is_up);

    let site = store.get_website(id).expect("website should be found");
    assert_eq!(site.is_up, Some(false));
    assert_eq!(site.last_checked, Some(200));
    assert_eq!(site.last_down_time, Some(200));
    assert_eq!(site.response_time_ms, Some(7));
}

#[test]
fn outcome_for_vanished_website_writes_nothing() {
    let (mut store, id) = store_with_website();
    let result = classify_failure(String::from("connection refused"), 30);
    record_probe_outcome(&mut store, String::from("gone"), &result, 100);

    let rows = store.get_website_history(id.clone(), 50, 0).expect("history should be readable");
    assert!(rows.is_empty());
    let site = store.get_website(id).expect("website should be found");
    assert_eq!(site.is_up, None);
}
