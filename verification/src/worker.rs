//! The monitor engine's store side. Each cycle snapshots every website
//! with `Store::get_all_websites`, probes each URL outside any store
//! borrow, and writes each outcome back here — history first, then
//! status. The fixed-interval loop and the probes themselves live with
//! the process runtime, outside the library.

use vstd::prelude::*;
use crate::model::{copy_option_string, CheckHistory, Website};
use crate::monitor::CheckResult;
use crate::store::{has_website, lemma_website_at_unique, website_at, Store};
use crate::time_format::MAX_TIMESTAMP_SECS;

verus! {

/// Writes one probe outcome back: a history row taken at `now`, then the
/// refreshed status, in that order. Failures are tolerated, matching an
/// engine that never lets one website's trouble stop the cycle: a website
/// deleted since the snapshot writes nothing.
pub fn record_probe_outcome(store: &mut Store, website_id: String, result: &CheckResult, now: u64)
    requires
        old(store).wf(),
        now <= MAX_TIMESTAMP_SECS,
    ensures
        final(store).wf(),
        final(store).users() == old(store).users(),
        !has_website(old(store).websites(), website_id@) ==> *final(store) == *old(store),
        has_website(old(store).websites(), website_id@) ==> {
            &&& exists|h: CheckHistory|
                {
                    &&& h.website_id@ == website_id@
                    &&& h.checked_at == now
                    &&& h.is_up == result.is_up
                    &&& h.response_time_ms == result.response_time_ms
                    &&& h.status_code == result.status_code
                    &&& h.error_message == result.error_message
                    &&& exists|k: int|
                        0 <= k <= old(store).history().len() && final(store).history() == old(
                            store,
                        ).history().insert(k, h)
                }
            &&& has_website(final(store).websites(), website_id@)
            &&& website_at(final(store).websites(), website_id@).is_up == Some(result.is_up)
            &&& website_at(final(store).websites(), website_id@).last_checked == Some(now)
            &&& website_at(final(store).websites(), website_id@).response_time_ms
                == result.response_time_ms
            &&& (result.is_up ==> website_at(final(store).websites(), website_id@).last_down_time
                is None)
            &&& (!result.is_up ==> website_at(final(store).websites(), website_id@).last_down_time
                == Some(now))
            &&& exists|i: int|
                {
                    &&& 0 <= i < old(store).websites().len()
                    &&& (#[trigger] old(store).websites()[i]).id@ == website_id@
                    &&& final(store).websites() == old(store).websites().update(
                        i,
                        Website {
                            is_up: Some(result.is_up),
                            last_checked: Some(now),
                            last_down_time: if result.is_up {
                                None
                            } else {
                                Some(now)
                            },
                            response_time_ms: result.response_time_ms,
                            ..old(store).websites()[i]
                        },
                    )
                }
        },
{
    let message_copy = copy_option_string(&result.error_message);
    let recorded = store.record_check(
        website_id.clone(),
        result.is_up,
        result.response_time_ms,
        result.status_code,
        message_copy,
        now,
    );
    match recorded {
        Ok(row) => {
            proof {
                let k = choose|k: int|
                    0 <= k <= old(store).history().len() && store.history() == old(
                        store,
                    ).history().insert(k, row);
                assert(store.history()[k] == row);
                assert(has_website(store.websites(), website_id@) ==> exists|j: int|
                    0 <= j < store.history().len() && (#[trigger] store.history()[j]).website_id@
                        == website_id@ && store.history()[j].checked_at == now);
            }
            let ghost mid = *store;
            let _ = store.update_website_status(
                website_id,
                result.is_up,
                result.response_time_ms,
                now,
            );
            proof {
                let i = choose|i: int|
                    {
                        &&& 0 <= i < mid.websites().len()
                        &&& (#[trigger] mid.websites()[i]).id@ == website_id@
                        &&& store.websites() == mid.websites().update(
                            i,
                            Website {
                                is_up: Some(result.is_up),
                                last_checked: Some(now),
                                last_down_time: if result.is_up {
                                    None
                                } else {
                                    Some(now)
                                },
                                response_time_ms: result.response_time_ms,
                                ..mid.websites()[i]
                            },
                        )
                    };
                lemma_website_at_unique(store.websites(), website_id@, i);
            }
        },
        Err(_) => {
            // the site is gone; the engine still issues the status write,
            // which touches zero rows
            let _ = store.update_website_status(
                website_id,
                result.is_up,
                result.response_time_ms,
                now,
            );
        },
    }
}

} // verus!
