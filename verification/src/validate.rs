//! URL validation for website creation and update: the submitted text
//! must not be blank, and must begin with `http://` or `https://`.
//! No further parsing is done.

use vstd::prelude::*;
use crate::errors::ApiError;

verus! {

/// ASCII whitespace, the characters trimming ignores.
pub open spec fn is_space(c: char) -> bool {
    c == ' ' || c == '\t' || c == '\n' || c == '\r' || c == '\u{c}'
}

/// A string that is empty after trimming ASCII whitespace.
pub open spec fn is_blank(s: Seq<char>) -> bool {
    forall|i: int| 0 <= i < s.len() ==> is_space(#[trigger] s[i])
}

pub open spec fn has_prefix(s: Seq<char>, p: Seq<char>) -> bool {
    p.len() <= s.len() && s.subrange(0, p.len() as int) == p
}

pub open spec fn http_prefix() -> Seq<char> {
    seq!['h', 't', 't', 'p', ':', '/', '/']
}

pub open spec fn https_prefix() -> Seq<char> {
    seq!['h', 't', 't', 'p', 's', ':', '/', '/']
}

/// A URL the API accepts: not blank, and carrying one of the two schemes.
pub open spec fn spec_valid_url(s: Seq<char>) -> bool {
    !is_blank(s) && (has_prefix(s, http_prefix()) || has_prefix(s, https_prefix()))
}

fn is_space_exec(c: char) -> (r: bool)
    ensures
        r == is_space(c),
{
    c == ' ' || c == '\t' || c == '\n' || c == '\r' || c == '\u{c}'
}

fn is_blank_exec(url: &String) -> (r: bool)
    ensures
        r == is_blank(url@),
{
    let s = url.as_str();
    let n = s.unicode_len();
    let mut i: usize = 0;
    while i < n
        invariant
            n == s@.len(),
            s@ == url@,
            0 <= i <= n,
            forall|k: int| 0 <= k < i ==> is_space(#[trigger] s@[k]),
        decreases n - i,
    {
        if !is_space_exec(s.get_char(i)) {
            return false;
        }
        i = i + 1;
    }
    true
}

fn char_at(url: &String, i: usize) -> (c: char)
    requires
        i < url@.len(),
    ensures
        c == url@[i as int],
{
    url.as_str().get_char(i)
}

fn has_http_prefix(url: &String) -> (r: bool)
    ensures
        r == has_prefix(url@, http_prefix()),
{
    let n = url.as_str().unicode_len();
    if n < 7 {
        return false;
    }
    let r = char_at(url, 0) == 'h' && char_at(url, 1) == 't' && char_at(url, 2) == 't' && char_at(
        url,
        3,
    ) == 'p' && char_at(url, 4) == ':' && char_at(url, 5) == '/' && char_at(url, 6) == '/';
    assert(r ==> url@.subrange(0, 7) =~= http_prefix());
    assert(has_prefix(url@, http_prefix()) ==> r) by {
        if has_prefix(url@, http_prefix()) {
            assert(forall|k: int|
                0 <= k < 7 ==> url@[k] == #[trigger] url@.subrange(0, 7)[k]);
        }
    }
    r
}

fn has_https_prefix(url: &String) -> (r: bool)
    ensures
        r == has_prefix(url@, https_prefix()),
{
    let n = url.as_str().unicode_len();
    if n < 8 {
        return false;
    }
    let r = char_at(url, 0) == 'h' && char_at(url, 1) == 't' && char_at(url, 2) == 't' && char_at(
        url,
        3,
    ) == 'p' && char_at(url, 4) == 's' && char_at(url, 5) == ':' && char_at(url, 6) == '/'
        && char_at(url, 7) == '/';
    assert(r ==> url@.subrange(0, 8) =~= https_prefix());
    assert(has_prefix(url@, https_prefix()) ==> r) by {
        if has_prefix(url@, https_prefix()) {
            assert(forall|k: int|
                0 <= k < 8 ==> url@[k] == #[trigger] url@.subrange(0, 8)[k]);
        }
    }
    r
}

/// Checks a submitted URL, reporting the same failure the API reports:
/// blank text is rejected as empty; anything else without an accepted
/// scheme is rejected for its scheme.
pub fn validate_url(url: &String) -> (r: Result<(), ApiError>)
    ensures
        r is Ok <==> spec_valid_url(url@),
        is_blank(url@) ==> r == Err::<(), ApiError>(ApiError::UrlEmpty),
        !is_blank(url@) && !has_prefix(url@, http_prefix()) && !has_prefix(url@, https_prefix())
            ==> r == Err::<(), ApiError>(ApiError::UrlScheme),
{
    if is_blank_exec(url) {
        return Err(ApiError::UrlEmpty);
    }
    if has_http_prefix(url) || has_https_prefix(url) {
        Ok(())
    } else {
        Err(ApiError::UrlScheme)
    }
}

} // verus!
