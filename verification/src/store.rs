//! The store: sole custodian of the monitor's state, and the place where
//! the data-model invariants live.
//!
//! Rows are held in insertion-independent, query-ready order: websites
//! sorted by `time_added` descending and history sorted by `checked_at`
//! descending, so every listing is a filter of the stored order. Mutations
//! enforce per-row ownership: updating or deleting a website requires the
//! caller's user id to match the row, and a mismatch reports `NotFound`
//! with the state unchanged. Deleting a website deliberately leaves its
//! history rows in place (no cascade).

use vstd::prelude::*;
use vstd::pervasive::VecAdditionalExecFns;
use crate::errors::StoreError;
use crate::ids::fresh_id;
use crate::model::{copy_history_row, copy_website, CheckHistory, User, Website};
use crate::pagination::spec_page;
use crate::password::{password_accepts, verify_password};
use crate::time_format::MAX_TIMESTAMP_SECS;
use crate::validate::spec_valid_url;

verus! {

/// Selects the websites one user owns.
pub open spec fn owned_by(uid: Seq<char>) -> spec_fn(Website) -> bool {
    |w: Website| w.user_id@ == uid
}

/// Selects the history rows of one website.
pub open spec fn for_website(id: Seq<char>) -> spec_fn(CheckHistory) -> bool {
    |h: CheckHistory| h.website_id@ == id
}

pub open spec fn has_user_id(users: Seq<User>, id: Seq<char>) -> bool {
    exists|i: int| 0 <= i < users.len() && (#[trigger] users[i]).id@ == id
}

pub open spec fn has_username(users: Seq<User>, name: Seq<char>) -> bool {
    exists|i: int| 0 <= i < users.len() && (#[trigger] users[i]).username@ == name
}

pub open spec fn has_website(ws: Seq<Website>, id: Seq<char>) -> bool {
    exists|i: int| 0 <= i < ws.len() && (#[trigger] ws[i]).id@ == id
}

/// The website with the given id; meaningful only under `has_website`
/// and id uniqueness.
pub open spec fn website_at(ws: Seq<Website>, id: Seq<char>) -> Website {
    ws[choose|i: int| 0 <= i < ws.len() && (#[trigger] ws[i]).id@ == id]
}

/// A website with this id exists and is owned by this user: the double
/// predicate every mutation checks.
pub open spec fn has_owned_website(ws: Seq<Website>, id: Seq<char>, uid: Seq<char>) -> bool {
    exists|i: int|
        0 <= i < ws.len() && (#[trigger] ws[i]).id@ == id && ws[i].user_id@ == uid
}

pub open spec fn unique_user_ids(users: Seq<User>) -> bool {
    forall|i: int, j: int|
        0 <= i < j < users.len() ==> (#[trigger] users[i]).id@ != (#[trigger] users[j]).id@
}

pub open spec fn unique_usernames(users: Seq<User>) -> bool {
    forall|i: int, j: int|
        0 <= i < j < users.len() ==> (#[trigger] users[i]).username@ != (
        #[trigger] users[j]).username@
}

pub open spec fn unique_website_ids(ws: Seq<Website>) -> bool {
    forall|i: int, j: int|
        0 <= i < j < ws.len() ==> (#[trigger] ws[i]).id@ != (#[trigger] ws[j]).id@
}

/// Websites are held newest-first by creation time.
pub open spec fn websites_sorted(ws: Seq<Website>) -> bool {
    forall|i: int, j: int|
        0 <= i <= j < ws.len() ==> (#[trigger] ws[i]).time_added >= (#[trigger] ws[j]).time_added
}

/// History rows are held newest-first by probe time.
pub open spec fn history_sorted(hs: Seq<CheckHistory>) -> bool {
    forall|i: int, j: int|
        0 <= i <= j < hs.len() ==> (#[trigger] hs[i]).checked_at >= (#[trigger] hs[j]).checked_at
}

pub open spec fn history_bounded(hs: Seq<CheckHistory>) -> bool {
    forall|j: int| 0 <= j < hs.len() ==> (#[trigger] hs[j]).checked_at <= MAX_TIMESTAMP_SECS
}

/// The per-row invariants of a website: a valid URL, timestamps the wire
/// format can render, and the literal status-field semantics — the fields
/// are set together, and `last_down_time` is present exactly when the most
/// recent probe classified the site as down (a successful probe clears it).
pub open spec fn website_row_ok(w: Website) -> bool {
    &&& spec_valid_url(w.url@)
    &&& w.time_added <= MAX_TIMESTAMP_SECS
    &&& (w.is_up is Some <==> w.last_checked is Some)
    &&& (w.last_down_time is Some <==> w.is_up == Some(false))
    &&& (w.last_down_time is Some ==> w.last_down_time == w.last_checked)
    &&& (w.last_checked is Some ==> w.last_checked->0 <= MAX_TIMESTAMP_SECS)
}

/// A probed website's status is witnessed by a history row of the same
/// website whose probe time equals `last_checked`.
pub open spec fn row_backed(w: Website, hs: Seq<CheckHistory>) -> bool {
    w.is_up is Some ==> exists|j: int|
        0 <= j < hs.len() && (#[trigger] hs[j]).website_id@ == w.id@ && Some(hs[j].checked_at)
            == w.last_checked
}

pub open spec fn status_backed(ws: Seq<Website>, hs: Seq<CheckHistory>) -> bool {
    forall|i: int| 0 <= i < ws.len() ==> row_backed(#[trigger] ws[i], hs)
}

pub struct Store {
    users: Vec<User>,
    websites: Vec<Website>,
    history: Vec<CheckHistory>,
}

impl Store {
    pub closed spec fn users(&self) -> Seq<User> {
        self.users@
    }

    pub closed spec fn websites(&self) -> Seq<Website> {
        self.websites@
    }

    pub closed spec fn history(&self) -> Seq<CheckHistory> {
        self.history@
    }

    /// Well-formedness: identifier and username uniqueness, referential
    /// integrity of ownership, the stored orders, the per-row website
    /// invariants, and every probed status backed by a history row.
    pub open spec fn wf(&self) -> bool {
        &&& unique_user_ids(self.users())
        &&& unique_usernames(self.users())
        &&& unique_website_ids(self.websites())
        &&& websites_sorted(self.websites())
        &&& history_sorted(self.history())
        &&& history_bounded(self.history())
        &&& forall|i: int|
            0 <= i < self.websites().len() ==> website_row_ok(#[trigger] self.websites()[i])
        &&& forall|i: int|
            0 <= i < self.websites().len() ==> has_user_id(
                self.users(),
                (#[trigger] self.websites()[i]).user_id@,
            )
        &&& status_backed(self.websites(), self.history())
    }

    pub fn new() -> (s: Store)
        ensures
            s.wf(),
            s.users() == Seq::<User>::empty(),
            s.websites() == Seq::<Website>::empty(),
            s.history() == Seq::<CheckHistory>::empty(),
    {
        Store { users: Vec::new(), websites: Vec::new(), history: Vec::new() }
    }

    fn find_user_by_name(&self, name: &String) -> (r: Option<usize>)
        ensures
            match r {
                Some(i) => i < self.users().len() && self.users()[i as int].username@
                    == name@,
                None => !has_username(self.users(), name@),
            },
    {
        let n = self.users.len();
        let mut i: usize = 0;
        while i < n
            invariant
                n == self.users().len(),
                0 <= i <= n,
                forall|k: int| 0 <= k < i ==> (#[trigger] self.users()[k]).username@ != name@,
            decreases n - i,
        {
            if self.users[i].username == *name {
                return Some(i);
            }
            i = i + 1;
        }
        None
    }

    fn find_user_by_id(&self, id: &String) -> (r: Option<usize>)
        ensures
            match r {
                Some(i) => i < self.users().len() && self.users()[i as int].id@ == id@,
                None => !has_user_id(self.users(), id@),
            },
    {
        let n = self.users.len();
        let mut i: usize = 0;
        while i < n
            invariant
                n == self.users().len(),
                0 <= i <= n,
                forall|k: int| 0 <= k < i ==> (#[trigger] self.users()[k]).id@ != id@,
            decreases n - i,
        {
            if self.users[i].id == *id {
                return Some(i);
            }
            i = i + 1;
        }
        None
    }

    fn find_website(&self, id: &String) -> (r: Option<usize>)
        ensures
            match r {
                Some(i) => i < self.websites().len() && self.websites()[i as int].id@ == id@,
                None => !has_website(self.websites(), id@),
            },
    {
        let n = self.websites.len();
        let mut i: usize = 0;
        while i < n
            invariant
                n == self.websites().len(),
                0 <= i <= n,
                forall|k: int| 0 <= k < i ==> (#[trigger] self.websites()[k]).id@ != id@,
            decreases n - i,
        {
            if self.websites[i].id == *id {
                return Some(i);
            }
            i = i + 1;
        }
        None
    }

    /// Looks a website up by the double predicate `(id, user_id)`.
    fn find_owned_website(&self, id: &String, uid: &String) -> (r: Option<usize>)
        ensures
            match r {
                Some(i) => i < self.websites().len() && self.websites()[i as int].id@ == id@
                    && self.websites()[i as int].user_id@ == uid@,
                None => !has_owned_website(self.websites(), id@, uid@),
            },
    {
        let n = self.websites.len();
        let mut i: usize = 0;
        while i < n
            invariant
                n == self.websites().len(),
                0 <= i <= n,
                forall|k: int|
                    0 <= k < i ==> !((#[trigger] self.websites()[k]).id@ == id@
                        && self.websites()[k].user_id@ == uid@),
            decreases n - i,
        {
            if self.websites[i].id == *id && self.websites[i].user_id == *uid {
                return Some(i);
            }
            i = i + 1;
        }
        None
    }

    /// Returns the website row, or `NotFound` when the id is absent.
    pub fn get_website(&self, id: String) -> (r: Result<Website, StoreError>)
        requires
            self.wf(),
        ensures
            r is Ok <==> has_website(self.websites(), id@),
            match r {
                Ok(w) => w == website_at(self.websites(), id@),
                Err(e) => e == StoreError::NotFound,
            },
    {
        match self.find_website(&id) {
            Some(i) => {
                proof {
                    lemma_website_at_unique(self.websites(), id@, i as int);
                }
                Ok(copy_website(&self.websites[i]))
            },
            None => Err(StoreError::NotFound),
        }
    }

    /// Every website the user owns, newest first by creation time.
    pub fn list_websites(&self, user_id: String) -> (r: Result<Vec<Website>, StoreError>)
        requires
            self.wf(),
        ensures
            r matches Ok(v) && v@ == self.websites().filter(owned_by(user_id@)),
    {
        let n = self.websites.len();
        let mut out: Vec<Website> = Vec::new();
        let mut i: usize = 0;
        while i < n
            invariant
                n == self.websites().len(),
                0 <= i <= n,
                out@ == self.websites().take(i as int).filter(owned_by(user_id@)),
            decreases n - i,
        {
            proof {
                assert(self.websites().take(i + 1) =~= self.websites().take(i as int).push(
                    self.websites()[i as int],
                ));
                lemma_filter_push(
                    self.websites().take(i as int),
                    self.websites()[i as int],
                    owned_by(user_id@),
                );
            }
            if self.websites[i].user_id == user_id {
                out.push(copy_website(&self.websites[i]));
            }
            i = i + 1;
        }
        proof {
            assert(self.websites().take(n as int) =~= self.websites());
        }
        Ok(out)
    }

    /// Every website row, used by the monitor engine's snapshot.
    pub fn get_all_websites(&self) -> (r: Result<Vec<Website>, StoreError>)
        requires
            self.wf(),
        ensures
            r matches Ok(v) && v@ == self.websites(),
    {
        let n = self.websites.len();
        let mut out: Vec<Website> = Vec::new();
        let mut i: usize = 0;
        while i < n
            invariant
                n == self.websites().len(),
                0 <= i <= n,
                out@ == self.websites().take(i as int),
            decreases n - i,
        {
            out.push(copy_website(&self.websites[i]));
            proof {
                assert(self.websites().take(i + 1) =~= self.websites().take(i as int).push(
                    self.websites()[i as int],
                ));
            }
            i = i + 1;
        }
        proof {
            assert(self.websites().take(n as int) =~= self.websites());
        }
        Ok(out)
    }
}

/// The sign-up outcome: one user appended, carrying the fresh id, the
/// requested name, and the stored hash.
pub open spec fn user_added(
    pre: Seq<User>,
    post: Seq<User>,
    id: Seq<char>,
    name: Seq<char>,
    hash: Seq<char>,
) -> bool {
    &&& post.len() == pre.len() + 1
    &&& post.drop_last() == pre
    &&& post.last().id@ == id
    &&& post.last().username@ == name
    &&& post.last().password@ == hash
}

/// Sign-in succeeds exactly when some user carries the name and the
/// stored hash accepts the password.
pub open spec fn spec_credentials_ok(users: Seq<User>, name: Seq<char>, pw: Seq<char>) -> bool {
    exists|i: int|
        0 <= i < users.len() && (#[trigger] users[i]).username@ == name && password_accepts(
            users[i].password@,
            pw,
        )
}

impl Store {
    /// Inserts a new user under a freshly generated id and returns the id.
    /// A duplicate username is refused; the caller supplies the password
    /// already hashed.
    pub fn sign_up(&mut self, username: String, password: String) -> (r: Result<
        String,
        StoreError,
    >)
        requires
            old(self).wf(),
        ensures
            final(self).wf(),
            has_username(old(self).users(), username@) ==> r is Err,
            match r {
                Ok(id) => {
                    &&& !has_username(old(self).users(), username@)
                    &&& !has_user_id(old(self).users(), id@)
                    &&& user_added(
                        old(self).users(),
                        final(self).users(),
                        id@,
                        username@,
                        password@,
                    )
                    &&& final(self).websites() == old(self).websites()
                    &&& final(self).history() == old(self).history()
                },
                Err(e) => e == StoreError::Storage && *final(self) == *old(self),
            },
    {
        if self.find_user_by_name(&username).is_some() {
            return Err(StoreError::Storage);
        }
        let id = fresh_id();
        if self.find_user_by_id(&id).is_some() {
            return Err(StoreError::Storage);
        }
        let u = User { id: id.clone(), username, password };
        self.users.push(u);
        proof {
            let pre = old(self).users();
            let post = self.users@;
            assert(post.drop_last() =~= pre);
            assert forall|i: int, j: int| 0 <= i < j < post.len() implies (
            #[trigger] post[i]).id@ != (#[trigger] post[j]).id@ by {
                if j < post.len() - 1 {
                    assert(pre[i].id@ != pre[j].id@);
                } else {
                    assert(post[i] == pre[i]);
                }
            }
            assert forall|i: int, j: int| 0 <= i < j < post.len() implies (
            #[trigger] post[i]).username@ != (#[trigger] post[j]).username@ by {
                if j < post.len() - 1 {
                    assert(pre[i].username@ != pre[j].username@);
                } else {
                    assert(post[i] == pre[i]);
                }
            }
            assert forall|i: int| 0 <= i < self.websites@.len() implies has_user_id(
                post,
                (#[trigger] self.websites@[i]).user_id@,
            ) by {
                let k = choose|k: int|
                    0 <= k < pre.len() && (#[trigger] pre[k]).id@ == self.websites@[i].user_id@;
                assert(post[k] == pre[k]);
            }
        }
        Ok(id)
    }

    /// Loads the user by name and verifies the password against the stored
    /// hash; an unknown name, a rejected password, and an unreadable hash
    /// all report the same `NotFound`.
    pub fn sign_in(&self, username: String, password: String) -> (r: Result<String, StoreError>)
        requires
            self.wf(),
        ensures
            r is Ok <==> spec_credentials_ok(self.users(), username@, password@),
            match r {
                Ok(id) => exists|i: int|
                    {
                        &&& 0 <= i < self.users().len()
                        &&& (#[trigger] self.users()[i]).username@ == username@
                        &&& password_accepts(self.users()[i].password@, password@)
                        &&& id@ == self.users()[i].id@
                    },
                Err(e) => e == StoreError::NotFound,
            },
    {
        match self.find_user_by_name(&username) {
            None => {
                proof {
                    assert(!spec_credentials_ok(self.users(), username@, password@)) by {
                        if spec_credentials_ok(self.users(), username@, password@) {
                            let i = choose|i: int|
                                0 <= i < self.users().len() && (#[trigger] self.users()[i]).username@
                                    == username@ && password_accepts(
                                    self.users()[i].password@,
                                    password@,
                                );
                            assert(has_username(self.users(), username@));
                        }
                    }
                }
                Err(StoreError::NotFound)
            },
            Some(i) => {
                let outcome = verify_password(password.as_str(), self.users[i].password.as_str());
                match outcome {
                    Ok(true) => {
                        proof {
                            assert(spec_credentials_ok(self.users(), username@, password@));
                        }
                        Ok(self.users[i].id.clone())
                    },
                    _ => {
                        proof {
                            assert(!spec_credentials_ok(self.users(), username@, password@)) by {
                                if spec_credentials_ok(self.users(), username@, password@) {
                                    let j = choose|j: int|
                                        0 <= j < self.users().len() && (
                                        #[trigger] self.users()[j]).username@ == username@
                                            && password_accepts(
                                            self.users()[j].password@,
                                            password@,
                                        );
                                    let ii = i as int;
                                    if j < ii {
                                        assert(self.users()[j].username@
                                            != self.users()[ii].username@);
                                    } else if ii < j {
                                        assert(self.users()[ii].username@
                                            != self.users()[j].username@);
                                    }
                                }
                            }
                        }
                        Err(StoreError::NotFound)
                    },
                }
            },
        }
    }

    /// Inserts a new website for an existing user with a fresh id and
    /// `time_added = now`, and returns the row. The creation leaves the
    /// four status fields absent: the site has never been probed.
    pub fn create_website(&mut self, user_id: String, url: String, now: u64) -> (r: Result<
        Website,
        StoreError,
    >)
        requires
            old(self).wf(),
            spec_valid_url(url@),
            now <= MAX_TIMESTAMP_SECS,
        ensures
            final(self).wf(),
            !has_user_id(old(self).users(), user_id@) ==> r is Err,
            match r {
                Ok(w) => {
                    &&& w.url@ == url@
                    &&& w.user_id@ == user_id@
                    &&& w.time_added == now
                    &&& w.is_up is None
                    &&& w.last_checked is None
                    &&& w.last_down_time is None
                    &&& w.response_time_ms is None
                    &&& !has_website(old(self).websites(), w.id@)
                    &&& has_user_id(old(self).users(), user_id@)
                    &&& exists|k: int|
                        0 <= k <= old(self).websites().len() && final(self).websites() == old(
                            self,
                        ).websites().insert(k, w)
                    &&& final(self).users() == old(self).users()
                    &&& final(self).history() == old(self).history()
                    &&& has_website(final(self).websites(), w.id@)
                    &&& website_at(final(self).websites(), w.id@) == w
                    &&& final(self).websites().filter(owned_by(user_id@)).contains(w)
                },
                Err(e) => e == StoreError::Storage && *final(self) == *old(self),
            },
    {
        if self.find_user_by_id(&user_id).is_none() {
            return Err(StoreError::Storage);
        }
        let id = fresh_id();
        if self.find_website(&id).is_some() {
            return Err(StoreError::Storage);
        }
        let w = Website {
            id: id.clone(),
            url: url.clone(),
            user_id: user_id.clone(),
            time_added: now,
            is_up: None,
            last_checked: None,
            last_down_time: None,
            response_time_ms: None,
        };
        let returned = copy_website(&w);
        let ghost pre = self.websites@;
        let n = self.websites.len();
        let mut k: usize = 0;
        while k < n && now < self.websites[k].time_added
            invariant
                n == pre.len(),
                0 <= k <= n,
                self.websites@ == pre,
                forall|t: int| 0 <= t < k ==> (#[trigger] pre[t]).time_added > now,
            decreases n - k,
        {
            k = k + 1;
        }
        self.websites.insert(k, w);
        proof {
            let post = self.websites@;
            let ki = k as int;
            assert forall|t: int| 0 <= t < post.len() implies #[trigger] post[t] == (if t < ki {
                pre[t]
            } else if t == ki {
                returned
            } else {
                pre[t - 1]
            }) by {
                assert(post == pre.insert(ki, returned));
            }
            assert forall|i: int, j: int| 0 <= i < j < post.len() implies (
            #[trigger] post[i]).id@ != (#[trigger] post[j]).id@ by {
                if i != ki && j != ki {
                    let pi = if i < ki { i } else { i - 1 };
                    let pj = if j < ki { j } else { j - 1 };
                    assert(pre[pi].id@ != pre[pj].id@);
                } else if i == ki {
                    assert(!has_website(pre, returned.id@));
                    assert(pre[j - 1].id@ != returned.id@);
                } else {
                    assert(!has_website(pre, returned.id@));
                    assert(pre[i].id@ != returned.id@);
                }
            }
            assert forall|i: int, j: int| 0 <= i <= j < post.len() implies (
            #[trigger] post[i]).time_added >= (#[trigger] post[j]).time_added by {
                if i == ki && j > ki {
                    assert(pre[j - 1].time_added <= now) by {
                        if k < n {
                            assert(pre[ki].time_added <= now);
                            assert(pre[ki].time_added >= pre[j - 1].time_added);
                        }
                    }
                } else if i < ki && j == ki {
                    assert(pre[i].time_added > now);
                }
            }
            assert forall|i: int| 0 <= i < post.len() implies website_row_ok(
                #[trigger] post[i],
            ) by {
                if i != ki {
                    let pi = if i < ki { i } else { i - 1 };
                    assert(website_row_ok(pre[pi]));
                }
            }
            assert forall|i: int| 0 <= i < post.len() implies has_user_id(
                self.users@,
                (#[trigger] post[i]).user_id@,
            ) by {
                if i != ki {
                    let pi = if i < ki { i } else { i - 1 };
                    assert(has_user_id(self.users@, pre[pi].user_id@));
                }
            }
            assert forall|i: int| 0 <= i < post.len() implies row_backed(
                #[trigger] post[i],
                self.history@,
            ) by {
                if i != ki {
                    let pi = if i < ki { i } else { i - 1 };
                    assert(row_backed(pre[pi], self.history@));
                }
            }
            lemma_website_at_unique(post, returned.id@, ki);
            post.lemma_filter_contains(owned_by(user_id@), ki);
        }
        Ok(returned)
    }

    /// Rewrites the URL of the website, but only if `(id, user_id)`
    /// matches an existing row; otherwise `NotFound`, with nothing
    /// changed — for any submitted URL. A valid URL is demanded only
    /// where one is actually stored, keeping the row invariant.
    pub fn update_website(
        &mut self,
        website_id: String,
        user_id: String,
        new_url: String,
    ) -> (r: Result<Website, StoreError>)
        requires
            old(self).wf(),
            has_owned_website(old(self).websites(), website_id@, user_id@) ==> spec_valid_url(
                new_url@,
            ),
        ensures
            final(self).wf(),
            r is Ok <==> has_owned_website(old(self).websites(), website_id@, user_id@),
            final(self).users() == old(self).users(),
            final(self).history() == old(self).history(),
            match r {
                Ok(w) => exists|i: int|
                    {
                        &&& 0 <= i < old(self).websites().len()
                        &&& (#[trigger] old(self).websites()[i]).id@ == website_id@
                        &&& old(self).websites()[i].user_id@ == user_id@
                        &&& w == (Website { url: new_url, ..old(self).websites()[i] })
                        &&& final(self).websites() == old(self).websites().update(i, w)
                    },
                Err(e) => e == StoreError::NotFound && *final(self) == *old(self),
            },
    {
        match self.find_owned_website(&website_id, &user_id) {
            None => Err(StoreError::NotFound),
            Some(i) => {
                proof {
                    assert(has_owned_website(self.websites@, website_id@, user_id@));
                }
                let updated = Website {
                    id: self.websites[i].id.clone(),
                    url: new_url,
                    user_id: self.websites[i].user_id.clone(),
                    time_added: self.websites[i].time_added,
                    is_up: self.websites[i].is_up,
                    last_checked: self.websites[i].last_checked,
                    last_down_time: self.websites[i].last_down_time,
                    response_time_ms: self.websites[i].response_time_ms,
                };
                let returned = copy_website(&updated);
                let ghost pre = self.websites@;
                self.websites.set(i, updated);
                proof {
                    let post = self.websites@;
                    let ki = i as int;
                    assert forall|t: int| 0 <= t < post.len() implies #[trigger] post[t] == (if t
                        == ki {
                        returned
                    } else {
                        pre[t]
                    }) by {}
                    assert forall|i2: int, j: int| 0 <= i2 < j < post.len() implies (
                    #[trigger] post[i2]).id@ != (#[trigger] post[j]).id@ by {
                        assert(pre[i2].id@ != pre[j].id@);
                    }
                    assert forall|i2: int, j: int| 0 <= i2 <= j < post.len() implies (
                    #[trigger] post[i2]).time_added >= (#[trigger] post[j]).time_added by {
                        assert(pre[i2].time_added >= pre[j].time_added);
                    }
                    assert forall|i2: int| 0 <= i2 < post.len() implies website_row_ok(
                        #[trigger] post[i2],
                    ) by {
                        assert(website_row_ok(pre[i2]));
                    }
                    assert forall|i2: int| 0 <= i2 < post.len() implies has_user_id(
                        self.users@,
                        (#[trigger] post[i2]).user_id@,
                    ) by {
                        assert(has_user_id(self.users@, pre[i2].user_id@));
                    }
                    assert forall|i2: int| 0 <= i2 < post.len() implies row_backed(
                        #[trigger] post[i2],
                        self.history@,
                    ) by {
                        assert(row_backed(pre[i2], self.history@));
                    }
                    assert(post =~= pre.update(ki, returned));
                }
                Ok(returned)
            },
        }
    }

    /// Removes the website, but only if `(id, user_id)` matches an
    /// existing row; otherwise `NotFound`, with the row still present.
    /// History rows of the removed website are deliberately kept.
    pub fn delete_website(&mut self, website_id: String, user_id: String) -> (r: Result<
        usize,
        StoreError,
    >)
        requires
            old(self).wf(),
        ensures
            final(self).wf(),
            r is Ok <==> has_owned_website(old(self).websites(), website_id@, user_id@),
            final(self).users() == old(self).users(),
            final(self).history() == old(self).history(),
            match r {
                Ok(count) => count == 1 && exists|i: int|
                    {
                        &&& 0 <= i < old(self).websites().len()
                        &&& (#[trigger] old(self).websites()[i]).id@ == website_id@
                        &&& old(self).websites()[i].user_id@ == user_id@
                        &&& final(self).websites() == old(self).websites().remove(i)
                    },
                Err(e) => e == StoreError::NotFound && *final(self) == *old(self),
            },
    {
        match self.find_owned_website(&website_id, &user_id) {
            None => Err(StoreError::NotFound),
            Some(i) => {
                let ghost pre = self.websites@;
                self.websites.remove(i);
                proof {
                    let post = self.websites@;
                    let ki = i as int;
                    assert forall|t: int| 0 <= t < post.len() implies #[trigger] post[t] == (if t
                        < ki {
                        pre[t]
                    } else {
                        pre[t + 1]
                    }) by {}
                    assert forall|i2: int, j: int| 0 <= i2 < j < post.len() implies (
                    #[trigger] post[i2]).id@ != (#[trigger] post[j]).id@ by {
                        let pi = if i2 < ki { i2 } else { i2 + 1 };
                        let pj = if j < ki { j } else { j + 1 };
                        assert(pre[pi].id@ != pre[pj].id@);
                    }
                    assert forall|i2: int, j: int| 0 <= i2 <= j < post.len() implies (
                    #[trigger] post[i2]).time_added >= (#[trigger] post[j]).time_added by {
                        let pi = if i2 < ki { i2 } else { i2 + 1 };
                        let pj = if j < ki { j } else { j + 1 };
                        assert(pre[pi].time_added >= pre[pj].time_added);
                    }
                    assert forall|i2: int| 0 <= i2 < post.len() implies website_row_ok(
                        #[trigger] post[i2],
                    ) by {
                        let pi = if i2 < ki { i2 } else { i2 + 1 };
                        assert(website_row_ok(pre[pi]));
                    }
                    assert forall|i2: int| 0 <= i2 < post.len() implies has_user_id(
                        self.users@,
                        (#[trigger] post[i2]).user_id@,
                    ) by {
                        let pi = if i2 < ki { i2 } else { i2 + 1 };
                        assert(has_user_id(self.users@, pre[pi].user_id@));
                    }
                    assert forall|i2: int| 0 <= i2 < post.len() implies row_backed(
                        #[trigger] post[i2],
                        self.history@,
                    ) by {
                        let pi = if i2 < ki { i2 } else { i2 + 1 };
                        assert(row_backed(pre[pi], self.history@));
                    }
                }
                Ok(1)
            },
        }
    }
}

impl Store {
    /// Appends one probe outcome to the history of an existing website,
    /// with a fresh row id and `checked_at = now`, and returns the row.
    /// An unknown website is a referential-integrity violation.
    pub fn record_check(
        &mut self,
        website_id: String,
        is_up: bool,
        response_time_ms: Option<i32>,
        status_code: Option<i32>,
        error_message: Option<String>,
        now: u64,
    ) -> (r: Result<CheckHistory, StoreError>)
        requires
            old(self).wf(),
            now <= MAX_TIMESTAMP_SECS,
        ensures
            final(self).wf(),
            r is Ok <==> has_website(old(self).websites(), website_id@),
            final(self).users() == old(self).users(),
            final(self).websites() == old(self).websites(),
            match r {
                Ok(h) => {
                    &&& h.website_id@ == website_id@
                    &&& h.checked_at == now
                    &&& h.is_up == is_up
                    &&& h.response_time_ms == response_time_ms
                    &&& h.status_code == status_code
                    &&& h.error_message == error_message
                    &&& exists|k: int|
                        0 <= k <= old(self).history().len() && final(self).history() == old(
                            self,
                        ).history().insert(k, h)
                    &&& final(self).history().filter(for_website(website_id@)).contains(h)
                },
                Err(e) => e == StoreError::Storage && *final(self) == *old(self),
            },
    {
        if self.find_website(&website_id).is_none() {
            return Err(StoreError::Storage);
        }
        let id = fresh_id();
        let row = CheckHistory {
            id,
            website_id: website_id.clone(),
            checked_at: now,
            is_up,
            response_time_ms,
            status_code,
            error_message,
        };
        let returned = copy_history_row(&row);
        let ghost pre = self.history@;
        let n = self.history.len();
        let mut k: usize = 0;
        while k < n && now < self.history[k].checked_at
            invariant
                n == pre.len(),
                0 <= k <= n,
                self.history@ == pre,
                forall|t: int| 0 <= t < k ==> (#[trigger] pre[t]).checked_at > now,
            decreases n - k,
        {
            k = k + 1;
        }
        self.history.insert(k, row);
        proof {
            let post = self.history@;
            let ki = k as int;
            assert forall|t: int| 0 <= t < post.len() implies #[trigger] post[t] == (if t < ki {
                pre[t]
            } else if t == ki {
                returned
            } else {
                pre[t - 1]
            }) by {
                assert(post == pre.insert(ki, returned));
            }
            assert forall|i: int, j: int| 0 <= i <= j < post.len() implies (
            #[trigger] post[i]).checked_at >= (#[trigger] post[j]).checked_at by {
                if i == ki && j > ki {
                    assert(pre[j - 1].checked_at <= now) by {
                        if k < n {
                            assert(pre[ki].checked_at <= now);
                            assert(pre[ki].checked_at >= pre[j - 1].checked_at);
                        }
                    }
                } else if i < ki && j == ki {
                    assert(pre[i].checked_at > now);
                }
            }
            assert forall|j: int| 0 <= j < post.len() implies (#[trigger] post[j]).checked_at
                <= MAX_TIMESTAMP_SECS by {
                if j != ki {
                    let pj = if j < ki { j } else { j - 1 };
                    assert(pre[pj].checked_at <= MAX_TIMESTAMP_SECS);
                }
            }
            assert forall|i: int| 0 <= i < self.websites@.len() implies row_backed(
                #[trigger] self.websites@[i],
                post,
            ) by {
                if self.websites@[i].is_up is Some {
                    assert(row_backed(self.websites@[i], pre));
                    let j = choose|j: int|
                        0 <= j < pre.len() && (#[trigger] pre[j]).website_id@
                            == self.websites@[i].id@ && Some(pre[j].checked_at)
                            == self.websites@[i].last_checked;
                    let pj = if j < ki {
                        j
                    } else {
                        j + 1
                    };
                    assert(post[pj] == pre[j]);
                }
            }
            post.lemma_filter_contains(for_website(website_id@), ki);
        }
        Ok(returned)
    }

    /// Refreshes the four status fields of the website from one probe
    /// outcome taken at `now`: `is_up` and `last_checked` are always set,
    /// `response_time_ms` is copied, and `last_down_time` becomes `now` on
    /// a down classification and absent on a success. An unknown website
    /// id updates nothing and still succeeds, matching an update that
    /// touched zero rows.
    ///
    /// The write path records history first, so a history row taken at
    /// `now` must already exist for the website; that ordering is what
    /// keeps every probed status backed by a history row.
    pub fn update_website_status(
        &mut self,
        website_id: String,
        is_up: bool,
        response_time_ms: Option<i32>,
        now: u64,
    ) -> (r: Result<(), StoreError>)
        requires
            old(self).wf(),
            now <= MAX_TIMESTAMP_SECS,
            has_website(old(self).websites(), website_id@) ==> exists|j: int|
                0 <= j < old(self).history().len() && (#[trigger] old(self).history()[j]).website_id@
                    == website_id@ && old(self).history()[j].checked_at == now,
        ensures
            final(self).wf(),
            r is Ok,
            final(self).users() == old(self).users(),
            final(self).history() == old(self).history(),
            !has_website(old(self).websites(), website_id@) ==> *final(self) == *old(self),
            has_website(old(self).websites(), website_id@) ==> exists|i: int|
                {
                    &&& 0 <= i < old(self).websites().len()
                    &&& (#[trigger] old(self).websites()[i]).id@ == website_id@
                    &&& final(self).websites() == old(self).websites().update(
                        i,
                        Website {
                            is_up: Some(is_up),
                            last_checked: Some(now),
                            last_down_time: if is_up {
                                None
                            } else {
                                Some(now)
                            },
                            response_time_ms: response_time_ms,
                            ..old(self).websites()[i]
                        },
                    )
                },
    {
        match self.find_website(&website_id) {
            None => Ok(()),
            Some(i) => {
                let updated = Website {
                    id: self.websites[i].id.clone(),
                    url: self.websites[i].url.clone(),
                    user_id: self.websites[i].user_id.clone(),
                    time_added: self.websites[i].time_added,
                    is_up: Some(is_up),
                    last_checked: Some(now),
                    last_down_time: if is_up {
                        None
                    } else {
                        Some(now)
                    },
                    response_time_ms,
                };
                let ghost pre = self.websites@;
                self.websites.set(i, updated);
                proof {
                    let post = self.websites@;
                    let ki = i as int;
                    assert forall|t: int| 0 <= t < post.len() implies #[trigger] post[t] == (if t
                        == ki {
                        post[ki]
                    } else {
                        pre[t]
                    }) by {}
                    assert forall|i2: int, j: int| 0 <= i2 < j < post.len() implies (
                    #[trigger] post[i2]).id@ != (#[trigger] post[j]).id@ by {
                        assert(pre[i2].id@ != pre[j].id@);
                    }
                    assert forall|i2: int, j: int| 0 <= i2 <= j < post.len() implies (
                    #[trigger] post[i2]).time_added >= (#[trigger] post[j]).time_added by {
                        assert(pre[i2].time_added >= pre[j].time_added);
                    }
                    assert forall|i2: int| 0 <= i2 < post.len() implies website_row_ok(
                        #[trigger] post[i2],
                    ) by {
                        assert(website_row_ok(pre[i2]));
                    }
                    assert forall|i2: int| 0 <= i2 < post.len() implies has_user_id(
                        self.users@,
                        (#[trigger] post[i2]).user_id@,
                    ) by {
                        assert(has_user_id(self.users@, pre[i2].user_id@));
                    }
                    assert forall|i2: int| 0 <= i2 < post.len() implies row_backed(
                        #[trigger] post[i2],
                        self.history@,
                    ) by {
                        if i2 != ki {
                            assert(row_backed(pre[i2], self.history@));
                        } else {
                            let j = choose|j: int|
                                0 <= j < self.history@.len() && (
                                #[trigger] self.history@[j]).website_id@ == website_id@
                                    && self.history@[j].checked_at == now;
                            assert(self.history@[j].website_id@ == post[ki].id@);
                        }
                    }
                    assert(post =~= pre.update(ki, post[ki]));
                }
                Ok(())
            },
        }
    }

    /// The website's history rows, newest first by probe time, after
    /// skipping `offset` rows and taking at most `limit`. The caller hands
    /// in already-clamped paging values.
    pub fn get_website_history(&self, website_id: String, limit: i64, offset: i64) -> (r: Result<
        Vec<CheckHistory>,
        StoreError,
    >)
        requires
            self.wf(),
            1 <= limit,
            0 <= offset,
        ensures
            r matches Ok(v) && v@ == spec_page(
                self.history().filter(for_website(website_id@)),
                limit as int,
                offset as int,
            ),
    {
        let n = self.history.len();
        let mut filtered: Vec<CheckHistory> = Vec::new();
        let mut i: usize = 0;
        while i < n
            invariant
                n == self.history().len(),
                0 <= i <= n,
                filtered@ == self.history().take(i as int).filter(for_website(website_id@)),
            decreases n - i,
        {
            proof {
                assert(self.history().take(i + 1) =~= self.history().take(i as int).push(
                    self.history()[i as int],
                ));
                lemma_filter_push(
                    self.history().take(i as int),
                    self.history()[i as int],
                    for_website(website_id@),
                );
            }
            if self.history[i].website_id == website_id {
                filtered.push(copy_history_row(&self.history[i]));
            }
            i = i + 1;
        }
        proof {
            assert(self.history().take(n as int) =~= self.history());
        }
        let flen = filtered.len();
        let start: usize = if offset as u64 >= flen as u64 {
            flen
        } else {
            offset as usize
        };
        let end: usize = if limit as u64 >= (flen - start) as u64 {
            flen
        } else {
            start + (limit as usize)
        };
        proof {
            let len = filtered@.len() as int;
            let want = limit as int;
            let first = if offset as int > len {
                len
            } else {
                offset as int
            };
            assert(start as int == first);
            assert(end as int == if first + want > len {
                len
            } else {
                first + want
            });
        }
        let mut out: Vec<CheckHistory> = Vec::new();
        let mut t: usize = start;
        while t < end
            invariant
                start <= t <= end <= flen,
                flen == filtered@.len(),
                out@ == filtered@.subrange(start as int, t as int),
            decreases end - t,
        {
            out.push(copy_history_row(&filtered[t]));
            proof {
                assert(filtered@.subrange(start as int, t + 1) =~= filtered@.subrange(
                    start as int,
                    t as int,
                ).push(filtered@[t as int]));
            }
            t = t + 1;
        }
        proof {
            assert(out@ =~= spec_page(filtered@, limit as int, offset as int));
        }
        Ok(out)
    }
}

/// With unique ids, any index whose row carries the id is the row
/// `website_at` denotes.
pub proof fn lemma_website_at_unique(ws: Seq<Website>, id: Seq<char>, i: int)
    requires
        unique_website_ids(ws),
        0 <= i < ws.len(),
        ws[i].id@ == id,
    ensures
        has_website(ws, id),
        website_at(ws, id) == ws[i],
{
    assert(has_website(ws, id));
    let j = choose|j: int| 0 <= j < ws.len() && (#[trigger] ws[j]).id@ == id;
    if i < j {
        assert(ws[i].id@ != ws[j].id@);
    } else if j < i {
        assert(ws[j].id@ != ws[i].id@);
    }
}

/// Filtering one more element appends it exactly when it satisfies the
/// predicate.
pub proof fn lemma_filter_push<A>(s: Seq<A>, x: A, pred: spec_fn(A) -> bool)
    ensures
        s.push(x).filter(pred) == (if pred(x) {
            s.filter(pred).push(x)
        } else {
            s.filter(pred)
        }),
{
    reveal(Seq::filter);
    assert(s.push(x).drop_last() =~= s);
    assert(s.push(x).last() == x);
}

/// Every element of a filtered sequence stands somewhere in the full one.
pub proof fn lemma_filter_elem_source<A>(s: Seq<A>, pred: spec_fn(A) -> bool, k: int)
    requires
        0 <= k < s.filter(pred).len(),
    ensures
        exists|j: int| 0 <= j < s.len() && #[trigger] s[j] == s.filter(pred)[k],
{
    assert(s.filter(pred).contains(s.filter(pred)[k]));
    s.lemma_filter_contains_rev(pred, s.filter(pred)[k]);
}

/// The row `website_at` denotes satisfies the per-row invariants.
pub proof fn lemma_website_at_ok(s: Store, id: Seq<char>)
    requires
        s.wf(),
        has_website(s.websites(), id),
    ensures
        website_row_ok(website_at(s.websites(), id)),
        website_at(s.websites(), id).id@ == id,
{
    let j = choose|j: int| 0 <= j < s.websites().len() && (#[trigger] s.websites()[j]).id@ == id;
    assert(website_row_ok(s.websites()[j]));
}

/// Filtering preserves the newest-first order of a website listing.
pub proof fn lemma_websites_filter_sorted(ws: Seq<Website>, pred: spec_fn(Website) -> bool)
    requires
        websites_sorted(ws),
    ensures
        websites_sorted(ws.filter(pred)),
    decreases ws.len(),
{
    reveal(Seq::filter);
    if ws.len() > 0 {
        let dl = ws.drop_last();
        assert(websites_sorted(dl));
        lemma_websites_filter_sorted(dl, pred);
        let f = ws.filter(pred);
        let fdl = dl.filter(pred);
        if pred(ws.last()) {
            assert forall|i: int, j: int| 0 <= i <= j < f.len() implies (
            #[trigger] f[i]).time_added >= (#[trigger] f[j]).time_added by {
                if j < f.len() - 1 {
                    assert(fdl[i].time_added >= fdl[j].time_added);
                } else if i < f.len() - 1 {
                    lemma_filter_elem_source(dl, pred, i);
                    let src = choose|t: int| 0 <= t < dl.len() && #[trigger] dl[t] == fdl[i];
                    assert(ws[src].time_added >= ws[ws.len() - 1].time_added);
                }
            }
        }
    }
}

/// Filtering preserves the newest-first order of the history.
pub proof fn lemma_history_filter_sorted(hs: Seq<CheckHistory>, pred: spec_fn(CheckHistory) -> bool)
    requires
        history_sorted(hs),
    ensures
        history_sorted(hs.filter(pred)),
    decreases hs.len(),
{
    reveal(Seq::filter);
    if hs.len() > 0 {
        let dl = hs.drop_last();
        assert(history_sorted(dl));
        lemma_history_filter_sorted(dl, pred);
        let f = hs.filter(pred);
        let fdl = dl.filter(pred);
        if pred(hs.last()) {
            assert forall|i: int, j: int| 0 <= i <= j < f.len() implies (
            #[trigger] f[i]).checked_at >= (#[trigger] f[j]).checked_at by {
                if j < f.len() - 1 {
                    assert(fdl[i].checked_at >= fdl[j].checked_at);
                } else if i < f.len() - 1 {
                    lemma_filter_elem_source(dl, pred, i);
                    let src = choose|t: int| 0 <= t < dl.len() && #[trigger] dl[t] == fdl[i];
                    assert(hs[src].checked_at >= hs[hs.len() - 1].checked_at);
                }
            }
        }
    }
}

/// Every website listing a well-formed store hands out is sorted by
/// creation time, newest first.
pub proof fn lemma_list_websites_sorted(s: Store, uid: Seq<char>)
    requires
        s.wf(),
    ensures
        websites_sorted(s.websites().filter(owned_by(uid))),
{
    lemma_websites_filter_sorted(s.websites(), owned_by(uid));
}

/// A sorted website listing with pairwise-distinct creation times is
/// strictly decreasing.
pub proof fn lemma_websites_sorted_strict(ws: Seq<Website>)
    requires
        websites_sorted(ws),
        forall|i: int, j: int|
            0 <= i < j < ws.len() ==> (#[trigger] ws[i]).time_added != (
            #[trigger] ws[j]).time_added,
    ensures
        forall|i: int, j: int|
            0 <= i < j < ws.len() ==> (#[trigger] ws[i]).time_added > (
            #[trigger] ws[j]).time_added,
{
}

/// Every history listing a well-formed store hands out is sorted by probe
/// time, newest first.
pub proof fn lemma_history_listing_sorted(s: Store, website_id: Seq<char>)
    requires
        s.wf(),
    ensures
        history_sorted(s.history().filter(for_website(website_id))),
{
    lemma_history_filter_sorted(s.history(), for_website(website_id));
}

/// A sorted history listing with pairwise-distinct probe times is strictly
/// decreasing.
pub proof fn lemma_history_sorted_strict(hs: Seq<CheckHistory>)
    requires
        history_sorted(hs),
        forall|i: int, j: int|
            0 <= i < j < hs.len() ==> (#[trigger] hs[i]).checked_at != (
            #[trigger] hs[j]).checked_at,
    ensures
        forall|i: int, j: int|
            0 <= i < j < hs.len() ==> (#[trigger] hs[i]).checked_at > (
            #[trigger] hs[j]).checked_at,
{
}

/// Every website whose status shows a probe outcome is backed by a history
/// row of that website taken at exactly `last_checked`.
pub proof fn lemma_status_has_history(s: Store)
    requires
        s.wf(),
    ensures
        forall|i: int|
            0 <= i < s.websites().len() && (#[trigger] s.websites()[i]).is_up is Some
                ==> exists|j: int|
                0 <= j < s.history().len() && (#[trigger] s.history()[j]).website_id@
                    == s.websites()[i].id@ && Some(s.history()[j].checked_at)
                    == s.websites()[i].last_checked,
{
    assert forall|i: int|
        0 <= i < s.websites().len() && (#[trigger] s.websites()[i]).is_up is Some implies exists|
        j: int,
    |
        0 <= j < s.history().len() && (#[trigger] s.history()[j]).website_id@
            == s.websites()[i].id@ && Some(s.history()[j].checked_at)
            == s.websites()[i].last_checked by {
        assert(row_backed(s.websites()[i], s.history()));
    }
}

/// Every timestamp in a history listing is renderable by the wire format.
pub proof fn lemma_history_listing_bounded(s: Store, website_id: Seq<char>)
    requires
        s.wf(),
    ensures
        forall|k: int|
            0 <= k < s.history().filter(for_website(website_id)).len() ==> (#[trigger] s.history(
            ).filter(for_website(website_id))[k]).checked_at <= MAX_TIMESTAMP_SECS,
{
    let f = s.history().filter(for_website(website_id));
    assert forall|k: int| 0 <= k < f.len() implies (#[trigger] f[k]).checked_at
        <= MAX_TIMESTAMP_SECS by {
        lemma_filter_elem_source(s.history(), for_website(website_id), k);
    }
}

/// Two consecutive pages of one website's history select disjoint,
/// contiguous slices of the full newest-first listing: page `(limit,
/// offset)` followed by page `(limit, offset + limit)` is exactly the
/// single slice `(2 * limit, offset)`.
pub proof fn lemma_history_pages_partition(
    s: Store,
    website_id: Seq<char>,
    limit: int,
    offset: int,
)
    requires
        s.wf(),
        0 <= limit,
        0 <= offset,
    ensures
        spec_page(s.history().filter(for_website(website_id)), limit, offset) + spec_page(
            s.history().filter(for_website(website_id)),
            limit,
            offset + limit,
        ) == spec_page(s.history().filter(for_website(website_id)), 2 * limit, offset),
{
    crate::pagination::lemma_pages_disjoint_contiguous(
        s.history().filter(for_website(website_id)),
        limit,
        offset,
    );
}

/// Every row in a website listing satisfies the per-row invariants.
pub proof fn lemma_website_listing_ok(s: Store, uid: Seq<char>)
    requires
        s.wf(),
    ensures
        forall|k: int|
            0 <= k < s.websites().filter(owned_by(uid)).len() ==> website_row_ok(
                #[trigger] s.websites().filter(owned_by(uid))[k],
            ),
{
    let f = s.websites().filter(owned_by(uid));
    assert forall|k: int| 0 <= k < f.len() implies website_row_ok(#[trigger] f[k]) by {
        lemma_filter_elem_source(s.websites(), owned_by(uid), k);
    }
}

} // verus!
