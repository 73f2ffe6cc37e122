//! The persisted entities: users, websites, and the append-only
//! check history.

use vstd::prelude::*;

verus! {

/// A registered account. The password field holds a memory-hard hash with
/// embedded salt and parameters, never a plaintext password.
pub struct User {
    pub id: String,
    pub username: String,
    pub password: String,
}

/// A registered URL owned by one user, periodically probed. The four
/// status fields summarize the most recent probe; all are absent until
/// the first probe completes.
pub struct Website {
    pub id: String,
    pub url: String,
    pub user_id: String,
    pub time_added: u64,
    pub is_up: Option<bool>,
    pub last_checked: Option<u64>,
    pub last_down_time: Option<u64>,
    pub response_time_ms: Option<i32>,
}

/// One probe outcome, recorded forever: rows are inserted by the probe
/// write path and never updated or deleted.
pub struct CheckHistory {
    pub id: String,
    pub website_id: String,
    pub checked_at: u64,
    pub is_up: bool,
    pub response_time_ms: Option<i32>,
    pub status_code: Option<i32>,
    pub error_message: Option<String>,
}

pub(crate) fn copy_website(w: &Website) -> (r: Website)
    ensures
        r == *w,
{
    Website {
        id: w.id.clone(),
        url: w.url.clone(),
        user_id: w.user_id.clone(),
        time_added: w.time_added,
        is_up: w.is_up,
        last_checked: w.last_checked,
        last_down_time: w.last_down_time,
        response_time_ms: w.response_time_ms,
    }
}

pub(crate) fn copy_option_string(s: &Option<String>) -> (r: Option<String>)
    ensures
        r == *s,
{
    match s {
        Some(v) => Some(v.clone()),
        None => None,
    }
}

pub(crate) fn copy_history_row(h: &CheckHistory) -> (r: CheckHistory)
    ensures
        r == *h,
{
    CheckHistory {
        id: h.id.clone(),
        website_id: h.website_id.clone(),
        checked_at: h.checked_at,
        is_up: h.is_up,
        response_time_ms: h.response_time_ms,
        status_code: h.status_code,
        error_message: copy_option_string(&h.error_message),
    }
}

} // verus!
