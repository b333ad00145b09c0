//! The registry of sessions and its operations.
//!
//! [`Sessions`] owns every session. Its operations take validated
//! identifiers and, where they record a time, the time as an argument, so
//! that each of them is a function of its arguments alone.

use crate::clock::{secs_to_nanos, Timestamp};
use crate::error::AppError;
use crate::ident::{SessionID, UserID};
use crate::keyed::{lists, KeyedList};
use crate::model::{
    bounded, expired, body_bytes, body_fits, page_of, swept, with_page, with_response,
    without_responses, Registry, SessionView, MAX_BODY_BYTES,
};
use vstd::prelude::*;

verus! {

/// The texts of a list of pairs of strings.
pub open spec fn pair_texts(pairs: Seq<(String, String)>) -> Seq<(Seq<char>, Seq<char>)> {
    Seq::new(pairs.len(), |i: int| (pairs[i].0@, pairs[i].1@))
}

/// The number of bytes that `text` takes.
pub fn byte_len(text: &String) -> (n: usize)
    ensures
        n == body_bytes(text@),
{
    broadcast use vstd::slice::group_slice_axioms;

    text.as_str().as_bytes().len()
}

/// One session: its page, the responses to it, and the time of its last
/// change.
struct SessionState {
    page_content: String,
    response_by_user: KeyedList<String>,
    last_update: Timestamp,
}

impl View for SessionState {
    type V = SessionView;

    closed spec fn view(&self) -> SessionView {
        SessionView {
            page: self.page_content@,
            responses: self.response_by_user@.map_values(|body: String| body@),
            last_update: self.last_update.total_nanos(),
        }
    }
}

/// All sessions, by their identifiers.
pub struct Sessions {
    state_by_id: KeyedList<SessionState>,
}

impl View for Sessions {
    type V = Registry;

    closed spec fn view(&self) -> Registry {
        self.state_by_id@.map_values(|state: SessionState| state@)
    }
}

impl Sessions {
    /// Everything that the registry holds is within its limits. This holds of
    /// every registry at all times.
    #[verifier::type_invariant]
    pub open spec fn holds_within_limits(&self) -> bool {
        bounded(self@)
    }

    /// Takes the sessions out of the registry and leaves it empty, so that
    /// they can be changed and put back.
    fn detach(&mut self) -> (held: KeyedList<SessionState>)
        ensures
            held@ == old(self).state_by_id@,
            bounded(old(self)@),
    {
        proof {
            use_type_invariant(&*self);
        }
        let mut held: KeyedList<SessionState> = KeyedList::new();
        core::mem::swap(&mut self.state_by_id, &mut held);
        held
    }

    /// A registry without sessions.
    pub fn new() -> (sessions: Sessions)
        ensures
            sessions@ == Map::<Seq<char>, SessionView>::empty(),
    {
        let sessions = Sessions { state_by_id: KeyedList::new() };
        assert(sessions@ =~= Map::<Seq<char>, SessionView>::empty());
        sessions
    }

    /// The number of sessions.
    pub fn count_sessions(&self) -> (n: usize)
        ensures
            bounded(self@),
            self@.dom().finite(),
            n == self@.len(),
    {
        proof {
            use_type_invariant(self);
        }
        let n = self.state_by_id.len();
        assert(self@.dom() =~= self.state_by_id@.dom());
        n
    }

    /// The page of session `id`; `SessionIDDoesNotExist` if there is no such
    /// session. The registry stays as it is.
    pub fn get_page(&self, id: &SessionID) -> (r: Result<String, AppError>)
        ensures
            bounded(self@),
            match r {
                Ok(page) => page_of(self@, id@) == Ok::<Seq<char>, AppError>(page@),
                Err(e) => page_of(self@, id@) == Err::<Seq<char>, AppError>(e),
            },
    {
        proof {
            use_type_invariant(self);
        }
        match self.state_by_id.get(id.as_string()) {
            Some(state) => Ok(state.page_content.clone()),
            None => Err(AppError::SessionIDDoesNotExist),
        }
    }

    /// Publishes `content` under `id` at time `now`.
    ///
    /// A page of more than [`MAX_BODY_BYTES`] bytes is refused with
    /// `PageTooLarge` and the registry stays as it is. Otherwise the session
    /// is created if it did not exist, shows `content`, has no responses, and
    /// was last changed at `now`.
    pub fn set_page(&mut self, id: SessionID, content: String, now: Timestamp) -> (r: Result<
        (),
        AppError,
    >)
        ensures
            bounded(final(self)@),
            r == if body_fits(content@) {
                Ok::<(), AppError>(())
            } else {
                Err(AppError::PageTooLarge)
            },
            final(self)@ == if body_fits(content@) {
                with_page(old(self)@, id@, content@, now.total_nanos())
            } else {
                old(self)@
            },
    {
        if byte_len(&content) > MAX_BODY_BYTES {
            proof {
                use_type_invariant(&*self);
            }
            return Err(AppError::PageTooLarge);
        }
        let ghost text = content@;
        let state = SessionState {
            page_content: content,
            response_by_user: KeyedList::new(),
            last_update: now,
        };
        assert(state@.responses =~= Map::<Seq<char>, Seq<char>>::empty());
        let key = id.into_string();
        let mut held = self.detach();
        held.insert(key, state);
        assert(held@.map_values(|state: SessionState| state@) =~= with_page(
            old(self)@,
            id@,
            text,
            now.total_nanos(),
        ));
        self.state_by_id = held;
        Ok(())
    }

    /// Clears the responses of session `id`. Its page and the time of its
    /// last change stay; without such a session nothing happens.
    pub fn reset_responses(&mut self, id: &SessionID)
        ensures
            bounded(final(self)@),
            final(self)@ == without_responses(old(self)@, id@),
    {
        let mut held = self.detach();
        if let Some((key, state)) = held.take(id.as_string()) {
            let mut state = state;
            state.response_by_user.clear();
            assert(state@.responses =~= Map::<Seq<char>, Seq<char>>::empty());
            held.put(key, state);
        }
        assert(held@.map_values(|state: SessionState| state@) =~= without_responses(
            old(self)@,
            id@,
        ));
        self.state_by_id = held;
    }

    /// Whether there is a session `id`.
    pub fn contains(&self, id: &SessionID) -> (found: bool)
        ensures
            bounded(self@),
            found == self@.contains_key(id@),
    {
        proof {
            use_type_invariant(self);
        }
        self.state_by_id.contains_key(id.as_string())
    }

    /// Records that `user` answered `body` in session `id` at time `now`.
    ///
    /// A response of more than [`MAX_BODY_BYTES`] bytes is refused with
    /// `ResponseTooLarge`; else, without such a session, the call fails with
    /// `SessionIDDoesNotExist` and creates none. Either way the registry
    /// stays as it is. Otherwise the response takes the place of any earlier
    /// one of the same user, the other responses and the page stay, and the
    /// session was last changed at `now`.
    pub fn respond(&mut self, id: &SessionID, user: UserID, body: String, now: Timestamp) -> (r:
        Result<(), AppError>)
        ensures
            bounded(final(self)@),
            r == if !body_fits(body@) {
                Err::<(), AppError>(AppError::ResponseTooLarge)
            } else if old(self)@.contains_key(id@) {
                Ok::<(), AppError>(())
            } else {
                Err(AppError::SessionIDDoesNotExist)
            },
            final(self)@ == if body_fits(body@) {
                with_response(old(self)@, id@, user@, body@, now.total_nanos())
            } else {
                old(self)@
            },
    {
        if byte_len(&body) > MAX_BODY_BYTES {
            proof {
                use_type_invariant(&*self);
            }
            return Err(AppError::ResponseTooLarge);
        }
        let ghost text = body@;
        let mut held = self.detach();
        let found = match held.take(id.as_string()) {
            Some((key, state)) => {
                let mut state = state;
                let ghost before = state@;
                let name = user.into_string();
                state.response_by_user.insert(name, body);
                state.last_update = now;
                assert(state@.responses =~= before.responses.insert(user@, text));
                held.put(key, state);
                true
            },
            None => false,
        };
        assert(held@.map_values(|state: SessionState| state@) =~= with_response(
            old(self)@,
            id@,
            user@,
            text,
            now.total_nanos(),
        ));
        self.state_by_id = held;
        if found {
            Ok(())
        } else {
            Err(AppError::SessionIDDoesNotExist)
        }
    }

    /// The responses of session `id`, one pair of user and response for each
    /// user that answered, in no particular order; `SessionIDDoesNotExist`
    /// if there is no such session. The registry stays as it is.
    pub fn get_responses(&self, id: &SessionID) -> (r: Result<Vec<(String, String)>, AppError>)
        ensures
            bounded(self@),
            match r {
                Ok(pairs) => self@.contains_key(id@) && lists(
                    pair_texts(pairs@),
                    self@[id@].responses,
                ),
                Err(e) => e == AppError::SessionIDDoesNotExist && !self@.contains_key(id@),
            },
    {
        proof {
            use_type_invariant(self);
        }
        match self.state_by_id.get(id.as_string()) {
            Some(state) => {
                let responses = &state.response_by_user;
                let n = responses.len();
                let mut pairs: Vec<(String, String)> = Vec::new();
                let mut i: usize = 0;
                while i < n
                    invariant
                        n == responses.entries().len(),
                        i <= n,
                        pairs@.len() == i,
                        forall|j: int|
                            0 <= j < i ==> (#[trigger] pairs@[j]).0@ == responses.entries()[j].0
                                && pairs@[j].1@ == responses.entries()[j].1@,
                    decreases n - i,
                {
                    let (user, body) = responses.entry_at(i);
                    pairs.push((user.clone(), body.clone()));
                    i += 1;
                }
                proof {
                    let entries = responses.entries();
                    let texts = pair_texts(pairs@);
                    assert forall|a: int, b: int|
                        0 <= a < texts.len() && 0 <= b < texts.len() && a != b implies texts[a].0
                        != texts[b].0 by {
                        assert(texts[a].0 == entries[a].0 && texts[b].0 == entries[b].0);
                    }
                    assert forall|a: int| 0 <= a < texts.len() implies state@.responses.contains_key(
                        #[trigger] texts[a].0,
                    ) && state@.responses[texts[a].0] == texts[a].1 by {
                        assert(texts[a].0 == entries[a].0 && texts[a].1 == entries[a].1@);
                        assert(responses@.contains_key(entries[a].0));
                    }
                    assert forall|k: Seq<char>| #[trigger]
                        state@.responses.contains_key(k) implies exists|a: int|
                        0 <= a < texts.len() && texts[a].0 == k by {
                        assert(responses@.contains_key(k));
                        let a = choose|a: int| 0 <= a < entries.len() && entries[a].0 == k;
                        assert(texts[a].0 == k);
                    }
                }
                Ok(pairs)
            },
            None => Err(AppError::SessionIDDoesNotExist),
        }
    }

    /// Removes every session that has gone without a change for more than
    /// `lifetime_secs` seconds at time `now`. The other sessions stay as they
    /// are.
    pub fn expire_older_than(&mut self, now: Timestamp, lifetime_secs: i64)
        ensures
            bounded(final(self)@),
            final(self)@ == swept(
                old(self)@,
                now.total_nanos(),
                secs_to_nanos(lifetime_secs as int),
            ),
    {
        let ghost at = now.total_nanos();
        let ghost lifetime = secs_to_nanos(lifetime_secs as int);
        let mut rest = self.detach();
        let ghost all = rest@;
        let mut kept: KeyedList<SessionState> = KeyedList::new();
        let mut left = rest.len();
        while left > 0
            invariant
                rest@.dom().finite(),
                left == rest@.len(),
                at == now.total_nanos(),
                lifetime == secs_to_nanos(lifetime_secs as int),
                forall|id: Seq<char>| #[trigger]
                    rest@.contains_key(id) ==> all.contains_key(id) && rest@[id] == all[id],
                forall|id: Seq<char>| #[trigger]
                    kept@.contains_key(id) <==> all.contains_key(id) && !rest@.contains_key(id)
                        && !expired(all[id]@, at, lifetime),
                forall|id: Seq<char>| #[trigger] kept@.contains_key(id) ==> kept@[id] == all[id],
            decreases left,
        {
            if let Some((key, state)) = rest.pop() {
                if !state.last_update.expired_at(&now, lifetime_secs) {
                    kept.put(key, state);
                }
            }
            left -= 1;
        }
        assert(rest@ =~= Map::<Seq<char>, SessionState>::empty());
        assert(kept@.map_values(|state: SessionState| state@) =~= swept(old(self)@, at, lifetime));
        self.state_by_id = kept;
    }
}

} // verus!
