//! Offset-based pagination: clamping of the `limit` and `offset`
//! query parameters and the page a query selects from a full,
//! already-ordered listing.

use vstd::prelude::*;

verus! {

/// The default page size used when a query gives no `limit`.
pub const DEFAULT_LIMIT: i64 = 50;

/// The smallest page size a query may select.
pub const MIN_LIMIT: i64 = 1;

/// The largest page size a query may select.
pub const MAX_LIMIT: i64 = 500;

/// A missing `limit` defaults to 50; a given one is clamped into [1, 500].
pub open spec fn spec_clamp_limit(limit: Option<i64>) -> i64 {
    match limit {
        None => DEFAULT_LIMIT,
        Some(v) => if v < MIN_LIMIT {
            MIN_LIMIT
        } else if v > MAX_LIMIT {
            MAX_LIMIT
        } else {
            v
        },
    }
}

/// A missing `offset` defaults to 0; a negative one becomes 0.
pub open spec fn spec_clamp_offset(offset: Option<i64>) -> i64 {
    match offset {
        None => 0,
        Some(v) => if v < 0 {
            0
        } else {
            v
        },
    }
}

pub fn clamp_limit(limit: Option<i64>) -> (r: i64)
    ensures
        r == spec_clamp_limit(limit),
        MIN_LIMIT <= r <= MAX_LIMIT,
{
    match limit {
        None => DEFAULT_LIMIT,
        Some(v) => {
            if v < MIN_LIMIT {
                MIN_LIMIT
            } else if v > MAX_LIMIT {
                MAX_LIMIT
            } else {
                v
            }
        },
    }
}

pub fn clamp_offset(offset: Option<i64>) -> (r: i64)
    ensures
        r == spec_clamp_offset(offset),
        0 <= r,
{
    match offset {
        None => 0,
        Some(v) => {
            if v < 0 {
                0
            } else {
                v
            }
        },
    }
}

/// The page selected by `(limit, offset)` out of a full listing: skip
/// the first `offset` rows, then take up to `limit` rows.
pub open spec fn spec_page<T>(s: Seq<T>, limit: int, offset: int) -> Seq<T> {
    let len = s.len() as int;
    let start = if offset < 0 {
        0
    } else if offset > len {
        len
    } else {
        offset
    };
    let want = if limit < 0 {
        0
    } else {
        limit
    };
    let end = if start + want > len {
        len
    } else {
        start + want
    };
    s.subrange(start, end)
}

/// Querying page `(limit, offset)` and then page `(limit, offset + limit)`
/// yields disjoint, contiguous slices of the full ordering: together they
/// are exactly the single slice `(2 * limit, offset)`.
pub proof fn lemma_pages_disjoint_contiguous<T>(s: Seq<T>, limit: int, offset: int)
    requires
        0 <= limit,
        0 <= offset,
    ensures
        spec_page(s, limit, offset) + spec_page(s, limit, offset + limit) == spec_page(
            s,
            2 * limit,
            offset,
        ),
{
    assert(spec_page(s, limit, offset) + spec_page(s, limit, offset + limit) =~= spec_page(
        s,
        2 * limit,
        offset,
    ));
}

} // verus!
