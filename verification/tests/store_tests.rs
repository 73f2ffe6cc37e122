use uptime_monitor::errors::StoreError;
use uptime_monitor::store::Store;

fn store_with_user(name: &str) -> (Store, String) {
    let mut store = Store::new();
    let uid = store
        .sign_up(String::from(name), String::from("not-a-real-hash"))
        .expect("sign_up should succeed on a fresh store");
    (store, uid)
}

#[test]
fn created_website_is_retrievable_and_listed() {
    let (mut store, uid) = store_with_user("alice");
    let w = store
        .create_website(uid.clone(), String::from("https://example.com"), 1700000000)
        .expect("create_website should succeed");
    assert_eq!(w.user_id, uid);
    assert_eq!(w.url, "https://example.com");
    assert_eq!(w.time_added, 1700000000);
    assert_eq!(w.is_up, None);

    let got = store.get_website(w.id.clone()).expect("website should be found");
    assert_eq!(got.user_id, uid);
    assert_eq!(got.url, "https://example.com");

    let listed = store.list_websites(uid).expect("list_websites should succeed");
    assert_eq!(listed.len(), 1);
    assert_eq!(listed[0].id, w.id);
}

#[test]
fn update_by_non_owner_is_not_found_and_changes_nothing() {
    let (mut store, alice) = store_with_user("alice");
    let bob = store
        .sign_up(String::from("bob"), String::from("not-a-real-hash"))
        .expect("second sign_up should succeed");
    let w = store
        .create_website(alice.clone(), String::from("https://example.com"), 10)
        .expect("create_website should succeed");

    let r = store.update_website(w.id.clone(), bob, String::from("https://evil.example"));
    assert_eq!(r.err(), Some(StoreError::NotFound));
    let got = store.get_website(w.id.clone()).expect("row should still be there");
    assert_eq!(got.url, "https://example.com");

    let updated = store
        .update_website(w.id.clone(), alice, String::from("https://new.example"))
        .expect("owner update should succeed");
    assert_eq!(updated.url, "https://new.example");
    assert_eq!(store.get_website(w.id).unwrap().url, "https://new.example");
}

#[test]
fn delete_by_non_owner_is_not_found_and_row_stays() {
    let (mut store, alice) = store_with_user("alice");
    let bob = store
        .sign_up(String::from("bob"), String::from("not-a-real-hash"))
        .expect("second sign_up should succeed");
    let w = store
        .create_website(alice.clone(), String::from("https://example.com"), 10)
        .expect("create_website should succeed");

    let r = store.delete_website(w.id.clone(), bob);
    assert_eq!(r.err(), Some(StoreError::NotFound));
    assert!(store.get_website(w.id.clone()).is_ok());

    let count = store.delete_website(w.id.clone(), alice).expect("owner delete should succeed");
    assert_eq!(count, 1);
    assert!(store.get_website(w.id).is_err());
}

#[test]
fn deleting_a_website_keeps_its_history() {
    let (mut store, alice) = store_with_user("alice");
    let w = store
        .create_website(alice.clone(), String::from("https://example.com"), 10)
        .expect("create_website should succeed");
    store
        .record_check(w.id.clone(), true, Some(4), Some(200), None, 20)
        .expect("record_check should succeed");
    store.delete_website(w.id.clone(), alice).expect("delete should succeed");

    let rows = store
        .get_website_history(w.id, 50, 0)
        .expect("history query should still succeed");
    assert_eq!(rows.len(), 1);
    assert_eq!(rows[0].checked_at, 20);
}

#[test]
fn listing_is_newest_first() {
    let (mut store, uid) = store_with_user("alice");
    let w1 = store.create_website(uid.clone(), String::from("https://a.example"), 100).unwrap();
    let w2 = store.create_website(uid.clone(), String::from("https://b.example"), 200).unwrap();
    let w3 = store.create_website(uid.clone(), String::from("https://c.example"), 150).unwrap();

    let listed = store.list_websites(uid).unwrap();
    assert_eq!(listed.len(), 3);
    assert_eq!(listed[0].id, w2.id);
    assert_eq!(listed[1].id, w3.id);
    assert_eq!(listed[2].id, w1.id);
}

#[test]
fn listing_only_contains_the_owners_websites() {
    let (mut store, alice) = store_with_user("alice");
    let bob = store.sign_up(String::from("bob"), String::from("not-a-real-hash")).unwrap();
    store.create_website(alice.clone(), String::from("https://a.example"), 1).unwrap();
    store.create_website(bob.clone(), String::from("https://b.example"), 2).unwrap();

    let for_alice = store.list_websites(alice).unwrap();
    assert_eq!(for_alice.len(), 1);
    assert_eq!(for_alice[0].url, "https://a.example");
    let for_bob = store.list_websites(bob).unwrap();
    assert_eq!(for_bob.len(), 1);
    assert_eq!(for_bob[0].url, "https://b.example");
}

#[test]
fn history_is_newest_first_and_pages_are_contiguous() {
    let (mut store, uid) = store_with_user("alice");
    let w = store.create_website(uid, String::from("https://example.com"), 1).unwrap();
    for t in [11u64, 12, 13, 14, 15, 16] {
        store
            .record_check(w.id.clone(), true, Some(1), Some(200), None, t)
            .expect("record_check should succeed");
    }

    let full = store.get_website_history(w.id.clone(), 6, 0).unwrap();
    let times: Vec<u64> = full.iter().map(|h| h.checked_at).collect();
    assert_eq!(times, vec![16, 15, 14, 13, 12, 11]);

    let page1 = store.get_website_history(w.id.clone(), 2, 0).unwrap();
    let page2 = store.get_website_history(w.id.clone(), 2, 2).unwrap();
    let both = store.get_website_history(w.id.clone(), 4, 0).unwrap();
    let t1: Vec<u64> = page1.iter().map(|h| h.checked_at).collect();
    let t2: Vec<u64> = page2.iter().map(|h| h.checked_at).collect();
    let tb: Vec<u64> = both.iter().map(|h| h.checked_at).collect();
    assert_eq!(t1, vec![16, 15]);
    assert_eq!(t2, vec![14, 13]);
    assert_eq!(tb, vec![16, 15, 14, 13]);

    let beyond = store.get_website_history(w.id, 5, 100).unwrap();
    assert!(beyond.is_empty());
}

#[test]
fn recording_and_updating_status_reflects_the_probe() {
    let (mut store, uid) = store_with_user("alice");
    let w = store.create_website(uid, String::from("https://example.com"), 1).unwrap();
    let row = store
        .record_check(w.id.clone(), true, Some(5), Some(200), None, 1000)
        .expect("record_check should succeed");
    assert_eq!(row.website_id, w.id);
    assert_eq!(row.checked_at, 1000);
    assert!(row.is_up);
    store
        .update_website_status(w.id.clone(), true, Some(5), 1000)
        .expect("update_website_status should succeed");

    let got = store.get_website(w.id).unwrap();
    assert_eq!(got.is_up, Some(true));
    assert_eq!(got.last_checked, Some(1000));
    assert_eq!(got.last_down_time, None);
    assert_eq!(got.response_time_ms, Some(5));
}

#[test]
fn successful_probe_clears_last_down_time() {
    let (mut store, uid) = store_with_user("alice");
    let w = store.create_website(uid, String::from("https://example.com"), 1).unwrap();

    store.record_check(w.id.clone(), false, Some(9), Some(500), Some(String::from("HTTP 500")), 50).unwrap();
    store.update_website_status(w.id.clone(), false, Some(9), 50).unwrap();
    let down = store.get_website(w.id.clone()).unwrap();
    assert_eq!(down.is_up, Some(false));
    assert_eq!(down.last_down_time, Some(50));

    store.record_check(w.id.clone(), true, Some(3), Some(200), None, 60).unwrap();
    store.update_website_status(w.id.clone(), true, Some(3), 60).unwrap();
    let up = store.get_website(w.id).unwrap();
    assert_eq!(up.is_up, Some(true));
    assert_eq!(up.last_checked, Some(60));
    assert_eq!(up.last_down_time, None);
}

#[test]
fn duplicate_username_is_refused() {
    let (mut store, _uid) = store_with_user("alice");
    let r = store.sign_up(String::from("alice"), String::from("other-hash"));
    assert_eq!(r.err(), Some(StoreError::Storage));
}

#[test]
fn status_update_for_unknown_website_changes_nothing() {
    let (mut store, uid) = store_with_user("alice");
    let w = store.create_website(uid.clone(), String::from("https://example.com"), 1).unwrap();
    store
        .update_website_status(String::from("no-such-id"), false, Some(1), 99)
        .expect("an update that touches zero rows still succeeds");
    let got = store.get_website(w.id).unwrap();
    assert_eq!(got.is_up, None);
    assert_eq!(store.list_websites(uid).unwrap().len(), 1);
}

#[test]
fn create_for_unknown_user_is_refused() {
    let mut store = Store::new();
    let r = store.create_website(String::from("nobody"), String::from("https://example.com"), 1);
    assert_eq!(r.err(), Some(StoreError::Storage));
}

#[test]
fn generated_ids_are_distinct() {
    let (mut store, uid) = store_with_user("alice");
    let w1 = store.create_website(uid.clone(), String::from("https://a.example"), 1).unwrap();
    let w2 = store.create_website(uid, String::from("https://b.example"), 1).unwrap();
    assert_ne!(w1.id, w2.id);
    assert_eq!(w1.id.len(), 36);
}

#[test]
fn snapshot_returns_every_website() {
    let (mut store, alice) = store_with_user("alice");
    let bob = store.sign_up(String::from("bob"), String::from("not-a-real-hash")).unwrap();
    store.create_website(alice, String::from("https://a.example"), 5).unwrap();
    store.create_website(bob, String::from("https://b.example"), 6).unwrap();

    let all = store.get_all_websites().expect("snapshot should succeed");
    assert_eq!(all.len(), 2);
}

#[test]
fn listing_for_unknown_user_is_empty() {
    let (store, _uid) = store_with_user("alice");
    let listed = store.list_websites(String::from("nobody")).unwrap();
    assert!(listed.is_empty());
    let history = store.get_website_history(String::from("nothing"), 10, 0).unwrap();
    assert!(history.is_empty());
}
