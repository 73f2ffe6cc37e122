//! The website endpoints, minus the HTTP skin: ownership is checked on
//! every access to a specific website, inputs are validated, and stored
//! rows are shaped into response bodies with rendered timestamps.

use vstd::prelude::*;
use crate::api_types::{
    CheckHistoryItem, CheckNowOutput, CreateWebsiteInput, CreateWebsiteOutput, DeleteWebsiteOutput,
    GetWebsiteOutput, HistoryQuery, ListWebsiteOutput, UpdateWebsiteInput, WebsiteHistoryOutput,
    WebsiteItem, WebsiteStatusOutput,
};
use crate::auth::AuthUser;
use crate::errors::ApiError;
use crate::model::{copy_option_string, CheckHistory, Website};
use crate::monitor::CheckResult;
use crate::pagination::{clamp_limit, clamp_offset, spec_clamp_limit, spec_clamp_offset, spec_page};
use crate::store::{
    for_website, has_owned_website, has_user_id, has_website, lemma_history_listing_bounded,
    lemma_website_at_ok, lemma_website_at_unique, lemma_website_listing_ok, owned_by, website_at,
    website_row_ok, Store,
};
use crate::time_format::{format_timestamp, spec_format_timestamp, MAX_TIMESTAMP_SECS};
use crate::validate::{has_prefix, http_prefix, https_prefix, is_blank, spec_valid_url,
    validate_url};
use vstd::string::StringExecFns;

verus! {

/// One listed website, as the API renders it.
pub open spec fn spec_website_item(w: Website, it: WebsiteItem) -> bool {
    &&& it.id@ == w.id@
    &&& it.url@ == w.url@
    &&& it.time_added@ == spec_format_timestamp(w.time_added as int)
}

/// One history row, as the API renders it.
pub open spec fn spec_history_item(h: CheckHistory, it: CheckHistoryItem) -> bool {
    &&& it.checked_at@ == spec_format_timestamp(h.checked_at as int)
    &&& it.is_up == h.is_up
    &&& it.response_time_ms == h.response_time_ms
    &&& it.status_code == h.status_code
    &&& it.error_message == h.error_message
}

/// Loads a website and enforces the ownership rule for reads: an absent
/// id is `NotFound`; a row the caller does not own is `Forbidden`.
fn load_owned(store: &Store, id: &String, auth: &AuthUser) -> (r: Result<Website, ApiError>)
    requires
        store.wf(),
    ensures
        !has_website(store.websites(), id@) ==> r == Err::<Website, ApiError>(ApiError::NotFound),
        has_website(store.websites(), id@) && website_at(store.websites(), id@).user_id@ != auth.0@
            ==> r == Err::<Website, ApiError>(ApiError::Forbidden),
        has_website(store.websites(), id@) && website_at(store.websites(), id@).user_id@ == auth.0@
            ==> (r matches Ok(w) && w == website_at(store.websites(), id@)),
{
    match store.get_website(id.clone()) {
        Err(_) => Err(ApiError::NotFound),
        Ok(w) => {
            if w.user_id == auth.0 {
                Ok(w)
            } else {
                Err(ApiError::Forbidden)
            }
        },
    }
}

/// Returns the URL of a website the caller owns.
pub fn get_website(store: &Store, id: String, auth: &AuthUser) -> (r: Result<
    GetWebsiteOutput,
    ApiError,
>)
    requires
        store.wf(),
    ensures
        !has_website(store.websites(), id@) ==> r == Err::<GetWebsiteOutput, ApiError>(
            ApiError::NotFound,
        ),
        has_website(store.websites(), id@) && website_at(store.websites(), id@).user_id@ != auth.0@
            ==> r == Err::<GetWebsiteOutput, ApiError>(ApiError::Forbidden),
        has_website(store.websites(), id@) && website_at(store.websites(), id@).user_id@ == auth.0@
            ==> (r matches Ok(out) && out.url@ == website_at(store.websites(), id@).url@),
{
    match load_owned(store, &id, auth) {
        Ok(w) => Ok(GetWebsiteOutput { url: w.url }),
        Err(e) => Err(e),
    }
}

/// Validates the URL and registers a website owned by the caller, with
/// `time_added = now` and no status yet.
pub fn create_website(
    store: &mut Store,
    input: CreateWebsiteInput,
    auth: &AuthUser,
    now: u64,
) -> (r: Result<CreateWebsiteOutput, ApiError>)
    requires
        old(store).wf(),
        now <= MAX_TIMESTAMP_SECS,
    ensures
        final(store).wf(),
        is_blank(input.url@) ==> r == Err::<CreateWebsiteOutput, ApiError>(ApiError::UrlEmpty),
        !is_blank(input.url@) && !has_prefix(input.url@, http_prefix()) && !has_prefix(
            input.url@,
            https_prefix(),
        ) ==> r == Err::<CreateWebsiteOutput, ApiError>(ApiError::UrlScheme),
        spec_valid_url(input.url@) && !has_user_id(old(store).users(), auth.0@) ==> r is Err,
        spec_valid_url(input.url@) && r is Err ==> r == Err::<CreateWebsiteOutput, ApiError>(
            ApiError::Internal,
        ),
        match r {
            Ok(out) => {
                &&& spec_valid_url(input.url@)
                &&& has_user_id(old(store).users(), auth.0@)
                &&& has_website(final(store).websites(), out.id@)
                &&& !has_website(old(store).websites(), out.id@)
                &&& website_at(final(store).websites(), out.id@).url@ == input.url@
                &&& website_at(final(store).websites(), out.id@).user_id@ == auth.0@
                &&& website_at(final(store).websites(), out.id@).time_added == now
                &&& website_at(final(store).websites(), out.id@).is_up is None
                &&& exists|k: int|
                    0 <= k <= old(store).websites().len() && final(store).websites() == old(
                        store,
                    ).websites().insert(k, website_at(final(store).websites(), out.id@))
                &&& final(store).websites().filter(owned_by(auth.0@)).contains(
                    website_at(final(store).websites(), out.id@),
                )
                &&& final(store).users() == old(store).users()
                &&& final(store).history() == old(store).history()
            },
            Err(e) => (e == ApiError::UrlEmpty || e == ApiError::UrlScheme || e
                == ApiError::Internal) && *final(store) == *old(store),
        },
{
    match validate_url(&input.url) {
        Err(e) => {
            return Err(e);
        },
        Ok(()) => {},
    }
    match store.create_website(auth.0.clone(), input.url, now) {
        Ok(w) => {
            proof {
                let k = choose|k: int|
                    0 <= k <= old(store).websites().len() && store.websites() == old(
                        store,
                    ).websites().insert(k, w);
                assert(store.websites() == old(store).websites().insert(
                    k,
                    website_at(store.websites(), w.id@),
                ));
            }
            Ok(CreateWebsiteOutput { id: w.id })
        },
        Err(_) => Err(ApiError::Internal),
    }
}

/// Lists the caller's websites, newest first, with rendered creation
/// times.
pub fn list_websites(store: &Store, auth: &AuthUser) -> (r: Result<ListWebsiteOutput, ApiError>)
    requires
        store.wf(),
    ensures
        r matches Ok(out) && {
            let listed = store.websites().filter(owned_by(auth.0@));
            &&& out.items@.len() == listed.len()
            &&& forall|k: int|
                0 <= k < listed.len() ==> spec_website_item(listed[k], #[trigger] out.items@[k])
        },
{
    let websites = match store.list_websites(auth.0.clone()) {
        Ok(v) => v,
        Err(_) => {
            return Err(ApiError::Internal);
        },
    };
    proof {
        lemma_website_listing_ok(*store, auth.0@);
    }
    let n = websites.len();
    let mut items: Vec<WebsiteItem> = Vec::new();
    let mut i: usize = 0;
    while i < n
        invariant
            n == websites@.len(),
            0 <= i <= n,
            websites@ == store.websites().filter(owned_by(auth.0@)),
            forall|k: int|
                0 <= k < websites@.len() ==> website_row_ok(#[trigger] websites@[k]),
            items@.len() == i,
            forall|k: int|
                0 <= k < i ==> spec_website_item(websites@[k], #[trigger] items@[k]),
        decreases n - i,
    {
        let w = &websites[i];
        items.push(
            WebsiteItem {
                id: w.id.clone(),
                url: w.url.clone(),
                time_added: format_timestamp(w.time_added),
            },
        );
        i = i + 1;
    }
    Ok(ListWebsiteOutput { items })
}

/// Rewrites the URL of a website the caller owns; an absent id and an
/// ownership mismatch both report `NotFound`, with nothing changed.
pub fn update_website(
    store: &mut Store,
    id: String,
    input: UpdateWebsiteInput,
    auth: &AuthUser,
) -> (r: Result<CreateWebsiteOutput, ApiError>)
    requires
        old(store).wf(),
    ensures
        final(store).wf(),
        is_blank(input.url@) ==> r == Err::<CreateWebsiteOutput, ApiError>(ApiError::UrlEmpty)
            && *final(store) == *old(store),
        !is_blank(input.url@) && !has_prefix(input.url@, http_prefix()) && !has_prefix(
            input.url@,
            https_prefix(),
        ) ==> r == Err::<CreateWebsiteOutput, ApiError>(ApiError::UrlScheme) && *final(store)
            == *old(store),
        spec_valid_url(input.url@) && !has_owned_website(old(store).websites(), id@, auth.0@) ==> r
            == Err::<CreateWebsiteOutput, ApiError>(ApiError::NotFound) && *final(store) == *old(
            store,
        ),
        r is Ok <==> spec_valid_url(input.url@) && has_owned_website(
            old(store).websites(),
            id@,
            auth.0@,
        ),
        match r {
            Ok(out) => {
                &&& out.id@ == id@
                &&& exists|i: int|
                    {
                        &&& 0 <= i < old(store).websites().len()
                        &&& (#[trigger] old(store).websites()[i]).id@ == id@
                        &&& old(store).websites()[i].user_id@ == auth.0@
                        &&& final(store).websites() == old(store).websites().update(
                            i,
                            Website { url: input.url, ..old(store).websites()[i] },
                        )
                    }
                &&& final(store).users() == old(store).users()
                &&& final(store).history() == old(store).history()
            },
            Err(e) => *final(store) == *old(store),
        },
{
    match validate_url(&input.url) {
        Err(e) => {
            return Err(e);
        },
        Ok(()) => {},
    }
    match store.update_website(id, auth.0.clone(), input.url) {
        Ok(w) => Ok(CreateWebsiteOutput { id: w.id }),
        Err(_) => Err(ApiError::NotFound),
    }
}

/// Deletes a website the caller owns; an absent id and an ownership
/// mismatch both report `NotFound`, with the row still present. History
/// rows of the deleted website are kept.
pub fn delete_website(store: &mut Store, id: String, auth: &AuthUser) -> (r: Result<
    DeleteWebsiteOutput,
    ApiError,
>)
    requires
        old(store).wf(),
    ensures
        final(store).wf(),
        r is Ok <==> has_owned_website(old(store).websites(), id@, auth.0@),
        final(store).users() == old(store).users(),
        final(store).history() == old(store).history(),
        match r {
            Ok(out) => {
                &&& out.success == true
                &&& out.message@ == "Website deleted successfully"@
                &&& exists|i: int|
                    {
                        &&& 0 <= i < old(store).websites().len()
                        &&& (#[trigger] old(store).websites()[i]).id@ == id@
                        &&& old(store).websites()[i].user_id@ == auth.0@
                        &&& final(store).websites() == old(store).websites().remove(i)
                    }
            },
            Err(e) => e == ApiError::NotFound && *final(store) == *old(store),
        },
{
    match store.delete_website(id, auth.0.clone()) {
        Ok(_) => Ok(
            DeleteWebsiteOutput {
                success: true,
                message: String::from_str("Website deleted successfully"),
            },
        ),
        Err(_) => Err(ApiError::NotFound),
    }
}

/// Returns the four status fields of a website the caller owns, with
/// timestamps rendered in the wire format.
pub fn get_website_status(store: &Store, id: String, auth: &AuthUser) -> (r: Result<
    WebsiteStatusOutput,
    ApiError,
>)
    requires
        store.wf(),
    ensures
        !has_website(store.websites(), id@) ==> r == Err::<WebsiteStatusOutput, ApiError>(
            ApiError::NotFound,
        ),
        has_website(store.websites(), id@) && website_at(store.websites(), id@).user_id@ != auth.0@
            ==> r == Err::<WebsiteStatusOutput, ApiError>(ApiError::Forbidden),
        has_website(store.websites(), id@) && website_at(store.websites(), id@).user_id@ == auth.0@
            ==> (r matches Ok(out) && {
            let w = website_at(store.websites(), id@);
            &&& out.is_up == w.is_up
            &&& out.response_time_ms == w.response_time_ms
            &&& match (w.last_checked, out.last_checked) {
                (Some(t), Some(rendered)) => rendered@ == spec_format_timestamp(t as int),
                (None, None) => true,
                _ => false,
            }
            &&& match (w.last_down_time, out.last_down_time) {
                (Some(t), Some(rendered)) => rendered@ == spec_format_timestamp(t as int),
                (None, None) => true,
                _ => false,
            }
        }),
{
    let w = match load_owned(store, &id, auth) {
        Ok(w) => w,
        Err(e) => {
            return Err(e);
        },
    };
    proof {
        lemma_website_at_ok(*store, id@);
    }
    let last_checked = match w.last_checked {
        Some(t) => Some(format_timestamp(t)),
        None => None,
    };
    let last_down_time = match w.last_down_time {
        Some(t) => Some(format_timestamp(t)),
        None => None,
    };
    Ok(
        WebsiteStatusOutput {
            is_up: w.is_up,
            last_checked,
            last_down_time,
            response_time_ms: w.response_time_ms,
        },
    )
}

/// Returns one page of a website's history, newest first, for a caller
/// who owns it: `limit` defaults to 50 and is clamped into [1, 500], a
/// missing or negative `offset` becomes 0.
pub fn get_website_history(
    store: &Store,
    id: String,
    auth: &AuthUser,
    query: HistoryQuery,
) -> (r: Result<WebsiteHistoryOutput, ApiError>)
    requires
        store.wf(),
    ensures
        !has_website(store.websites(), id@) ==> r == Err::<WebsiteHistoryOutput, ApiError>(
            ApiError::NotFound,
        ),
        has_website(store.websites(), id@) && website_at(store.websites(), id@).user_id@ != auth.0@
            ==> r == Err::<WebsiteHistoryOutput, ApiError>(ApiError::Forbidden),
        has_website(store.websites(), id@) && website_at(store.websites(), id@).user_id@ == auth.0@
            ==> (r matches Ok(out) && {
            let page = spec_page(
                store.history().filter(for_website(id@)),
                spec_clamp_limit(query.limit) as int,
                spec_clamp_offset(query.offset) as int,
            );
            &&& out.items@.len() == page.len()
            &&& forall|k: int|
                0 <= k < page.len() ==> spec_history_item(page[k], #[trigger] out.items@[k])
        }),
{
    match load_owned(store, &id, auth) {
        Ok(_) => {},
        Err(e) => {
            return Err(e);
        },
    }
    let limit = clamp_limit(query.limit);
    let offset = clamp_offset(query.offset);
    let rows = match store.get_website_history(id.clone(), limit, offset) {
        Ok(v) => v,
        Err(_) => {
            return Err(ApiError::Internal);
        },
    };
    proof {
        lemma_history_listing_bounded(*store, id@);
        let f = store.history().filter(for_website(id@));
        assert forall|k: int| 0 <= k < rows@.len() implies (#[trigger] rows@[k]).checked_at
            <= MAX_TIMESTAMP_SECS by {
            assert(rows@[k] == f[spec_page_start(f.len() as int, offset as int) + k]);
        }
    }
    let n = rows.len();
    let mut items: Vec<CheckHistoryItem> = Vec::new();
    let mut i: usize = 0;
    while i < n
        invariant
            n == rows@.len(),
            0 <= i <= n,
            forall|k: int|
                0 <= k < rows@.len() ==> (#[trigger] rows@[k]).checked_at <= MAX_TIMESTAMP_SECS,
            items@.len() == i,
            forall|k: int|
                0 <= k < i ==> spec_history_item(rows@[k], #[trigger] items@[k]),
        decreases n - i,
    {
        let h = &rows[i];
        items.push(
            CheckHistoryItem {
                checked_at: format_timestamp(h.checked_at),
                is_up: h.is_up,
                response_time_ms: h.response_time_ms,
                status_code: h.status_code,
                error_message: copy_option_string(&h.error_message),
            },
        );
        i = i + 1;
    }
    Ok(WebsiteHistoryOutput { items })
}

/// Where a page starts within the full listing.
pub open spec fn spec_page_start(len: int, offset: int) -> int {
    if offset < 0 {
        0
    } else if offset > len {
        len
    } else {
        offset
    }
}

/// The read-and-authorize half of the on-demand check: yields the URL to
/// probe, under the same ownership rule as every other read. The probe
/// itself runs outside any store borrow, and `check_now_commit` writes the
/// outcome back.
pub fn check_now_begin(store: &Store, id: String, auth: &AuthUser) -> (r: Result<String, ApiError>)
    requires
        store.wf(),
    ensures
        !has_website(store.websites(), id@) ==> r == Err::<String, ApiError>(ApiError::NotFound),
        has_website(store.websites(), id@) && website_at(store.websites(), id@).user_id@ != auth.0@
            ==> r == Err::<String, ApiError>(ApiError::Forbidden),
        has_website(store.websites(), id@) && website_at(store.websites(), id@).user_id@ == auth.0@
            ==> (r matches Ok(url) && url@ == website_at(store.websites(), id@).url@),
{
    match load_owned(store, &id, auth) {
        Ok(w) => Ok(w.url),
        Err(e) => Err(e),
    }
}

/// The write-back half of the on-demand check: records the probe outcome
/// as a history row taken at `now`, then refreshes the status fields, in
/// that order, and echoes the result. A website deleted since the read
/// half is internal, with nothing written.
pub fn check_now_commit(store: &mut Store, id: String, result: CheckResult, now: u64) -> (r: Result<
    CheckNowOutput,
    ApiError,
>)
    requires
        old(store).wf(),
        now <= MAX_TIMESTAMP_SECS,
    ensures
        final(store).wf(),
        r is Ok <==> has_website(old(store).websites(), id@),
        final(store).users() == old(store).users(),
        match r {
            Ok(out) => {
                &&& out.is_up == result.is_up
                &&& out.response_time_ms == result.response_time_ms
                &&& out.status_code == result.status_code
                &&& out.error_message == result.error_message
                &&& exists|h: CheckHistory|
                    {
                        &&& h.website_id@ == id@
                        &&& h.checked_at == now
                        &&& h.is_up == result.is_up
                        &&& h.response_time_ms == result.response_time_ms
                        &&& h.status_code == result.status_code
                        &&& h.error_message == result.error_message
                        &&& exists|k: int|
                            0 <= k <= old(store).history().len() && final(store).history() == old(
                                store,
                            ).history().insert(k, h)
                    }
                &&& has_website(final(store).websites(), id@)
                &&& website_at(final(store).websites(), id@).is_up == Some(result.is_up)
                &&& website_at(final(store).websites(), id@).last_checked == Some(now)
                &&& website_at(final(store).websites(), id@).response_time_ms
                    == result.response_time_ms
                &&& (result.is_up ==> website_at(final(store).websites(), id@).last_down_time
                    is None)
                &&& (!result.is_up ==> website_at(final(store).websites(), id@).last_down_time
                    == Some(now))
                &&& exists|i: int|
                    {
                        &&& 0 <= i < old(store).websites().len()
                        &&& (#[trigger] old(store).websites()[i]).id@ == id@
                        &&& final(store).websites() == old(store).websites().update(
                            i,
                            Website {
                                is_up: Some(result.is_up),
                                last_checked: Some(now),
                                last_down_time: if result.is_up {
                                    None
                                } else {
                                    Some(now)
                                },
                                response_time_ms: result.response_time_ms,
                                ..old(store).websites()[i]
                            },
                        )
                    }
            },
            Err(e) => e == ApiError::Internal && *final(store) == *old(store),
        },
{
    let message_copy = copy_option_string(&result.error_message);
    let row = match store.record_check(
        id.clone(),
        result.is_up,
        result.response_time_ms,
        result.status_code,
        message_copy,
        now,
    ) {
        Ok(h) => h,
        Err(_) => {
            return Err(ApiError::Internal);
        },
    };
    proof {
        let k = choose|k: int|
            0 <= k <= old(store).history().len() && store.history() == old(store).history().insert(
                k,
                row,
            );
        assert(store.history()[k] == row);
        assert(has_website(store.websites(), id@) ==> exists|j: int|
            0 <= j < store.history().len() && (#[trigger] store.history()[j]).website_id@ == id@
                && store.history()[j].checked_at == now);
    }
    let ghost mid = *store;
    let _ = store.update_website_status(id.clone(), result.is_up, result.response_time_ms, now);
    proof {
        let i = choose|i: int|
            {
                &&& 0 <= i < mid.websites().len()
                &&& (#[trigger] mid.websites()[i]).id@ == id@
                &&& store.websites() == mid.websites().update(
                    i,
                    Website {
                        is_up: Some(result.is_up),
                        last_checked: Some(now),
                        last_down_time: if result.is_up {
                            None
                        } else {
                            Some(now)
                        },
                        response_time_ms: result.response_time_ms,
                        ..mid.websites()[i]
                    },
                )
            };
        lemma_website_at_unique(store.websites(), id@, i);
    }
    Ok(
        CheckNowOutput {
            is_up: result.is_up,
            response_time_ms: result.response_time_ms,
            status_code: result.status_code,
            error_message: result.error_message,
        },
    )
}

} // verus!
