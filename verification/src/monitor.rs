//! Probe-result classification: how one HTTP fetch of a website's URL
//! becomes a `CheckResult`. The fetch itself — a GET with a 10-second
//! deadline — happens outside the library; these functions classify its
//! outcome.

use vstd::prelude::*;
use crate::text::{push_dec, spec_dec, string_push};

verus! {

/// The outcome of one probe: the up/down classification, the elapsed
/// wall time, the HTTP status when a response arrived, and a short
/// diagnostic when the site is down.
pub struct CheckResult {
    pub is_up: bool,
    pub response_time_ms: Option<i32>,
    pub status_code: Option<i32>,
    pub error_message: Option<String>,
}

/// A probe succeeds exactly on a 2xx status.
pub open spec fn spec_is_success(status: u16) -> bool {
    200 <= status < 300
}

/// The diagnostic for a non-2xx response: `HTTP <code>`.
pub open spec fn spec_http_error_message(status: u16) -> Seq<char> {
    seq!['H', 'T', 'T', 'P', ' '] + spec_dec(status as int)
}

/// Classifies a probe that obtained an HTTP response: up on 2xx with no
/// diagnostic, down otherwise with an `HTTP <code>` diagnostic; status
/// and elapsed time are always reported.
pub fn classify_response(status: u16, elapsed_ms: i32) -> (r: CheckResult)
    ensures
        r.is_up == spec_is_success(status),
        r.response_time_ms == Some(elapsed_ms),
        r.status_code == Some(status as i32),
        spec_is_success(status) ==> r.error_message is None,
        !spec_is_success(status) ==> (r.error_message matches Some(m) && m@
            == spec_http_error_message(status)),
{
    let is_up = 200 <= status && status < 300;
    let error_message = if is_up {
        None
    } else {
        let mut m = String::new();
        string_push(&mut m, 'H');
        string_push(&mut m, 'T');
        string_push(&mut m, 'T');
        string_push(&mut m, 'P');
        string_push(&mut m, ' ');
        push_dec(&mut m, status as u64);
        proof {
            assert(m@ =~= spec_http_error_message(status));
        }
        Some(m)
    };
    CheckResult {
        is_up,
        response_time_ms: Some(elapsed_ms),
        status_code: Some(status as i32),
        error_message,
    }
}

/// Classifies a probe that failed at the transport level — DNS, TCP, TLS,
/// timeout, or an unreadable response: down, with no status, the elapsed
/// time up to the failure, and the failure's own description.
pub fn classify_failure(error: String, elapsed_ms: i32) -> (r: CheckResult)
    ensures
        r.is_up == false,
        r.response_time_ms == Some(elapsed_ms),
        r.status_code is None,
        r.error_message == Some(error),
{
    CheckResult {
        is_up: false,
        response_time_ms: Some(elapsed_ms),
        status_code: None,
        error_message: Some(error),
    }
}

} // verus!
