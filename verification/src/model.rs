//! The mathematical model of the registry.
//!
//! A registry is a map from session identifiers to sessions; a session is a
//! page, the responses given to it by user, and the time of its last change.
//! The functions below say what each operation makes of such a map. The
//! contracts of [`crate::registry::Sessions`] and of [`crate::handlers`] are
//! stated over them, and so are the laws in [`crate::laws`].

use crate::error::AppError;
use crate::ident::{session_id_error, user_id_error, valid_identifier};
use vstd::prelude::*;

verus! {

/// The largest number of bytes the body of a request may have, be it a page
/// or a response.
pub const MAX_BODY_BYTES: usize = 1_000_000;

/// What a session holds.
pub struct SessionView {
    /// The page that the presenter published last.
    pub page: Seq<char>,
    /// The latest response of each user to that page.
    pub responses: Map<Seq<char>, Seq<char>>,
    /// When the page was set or a response was given last, in nanoseconds
    /// since the Unix epoch.
    pub last_update: int,
}

/// The sessions of a registry by their identifiers.
pub type Registry = Map<Seq<char>, SessionView>;

/// The number of bytes that `content` takes as UTF-8.
pub open spec fn body_bytes(content: Seq<char>) -> nat {
    vstd::utf8::encode_utf8(content).len()
}

/// Whether `content` is small enough to be taken as a page or a response.
pub open spec fn body_fits(content: Seq<char>) -> bool {
    body_bytes(content) <= MAX_BODY_BYTES
}

/// A session that was just given the page `content` at time `now`.
pub open spec fn fresh_session(content: Seq<char>, now: int) -> SessionView {
    SessionView { page: content, responses: Map::empty(), last_update: now }
}

/// The registry after `content` was published under `id` at time `now`:
/// the session exists, shows `content` and has no responses.
pub open spec fn with_page(reg: Registry, id: Seq<char>, content: Seq<char>, now: int) -> Registry {
    reg.insert(id, fresh_session(content, now))
}

/// The registry after the responses of session `id` were cleared. Page and
/// time of the last change stay; a registry without that session is
/// unchanged.
pub open spec fn without_responses(reg: Registry, id: Seq<char>) -> Registry {
    if reg.contains_key(id) {
        reg.insert(id, SessionView { responses: Map::empty(), ..reg[id] })
    } else {
        reg
    }
}

/// The registry after `user` answered `body` in session `id` at time `now`.
/// An earlier response of the same user is overwritten; a registry without
/// that session is unchanged.
pub open spec fn with_response(
    reg: Registry,
    id: Seq<char>,
    user: Seq<char>,
    body: Seq<char>,
    now: int,
) -> Registry {
    if reg.contains_key(id) {
        reg.insert(
            id,
            SessionView {
                responses: reg[id].responses.insert(user, body),
                last_update: now,
                ..reg[id]
            },
        )
    } else {
        reg
    }
}

/// Whether a session has gone without a change for more than `lifetime`
/// nanoseconds at time `now`.
pub open spec fn expired(session: SessionView, now: int, lifetime: int) -> bool {
    session.last_update + lifetime < now
}

/// The registry without the sessions that have expired at time `now`.
pub open spec fn swept(reg: Registry, now: int, lifetime: int) -> Registry {
    reg.restrict(Set::new(|id: Seq<char>| !expired(reg[id], now, lifetime)))
}

/// The page of session `id`, or the error that says there is no such session.
pub open spec fn page_of(reg: Registry, id: Seq<char>) -> Result<Seq<char>, AppError> {
    if reg.contains_key(id) {
        Ok(reg[id].page)
    } else {
        Err(AppError::SessionIDDoesNotExist)
    }
}

/// The responses of session `id`, or the error that says there is no such
/// session.
pub open spec fn responses_of(reg: Registry, id: Seq<char>) -> Result<
    Map<Seq<char>, Seq<char>>,
    AppError,
> {
    if reg.contains_key(id) {
        Ok(reg[id].responses)
    } else {
        Err(AppError::SessionIDDoesNotExist)
    }
}

/// What a request for the page of the session named `id` returns.
pub open spec fn page_request(reg: Registry, id: Seq<char>) -> Result<Seq<char>, AppError> {
    match session_id_error(id) {
        Some(e) => Err(e),
        None => page_of(reg, id),
    }
}

/// The error with which a request to publish `body` under the name `id` is
/// refused, if it is. The size of the page is checked before the name.
pub open spec fn set_page_refusal(body: Seq<char>, id: Seq<char>) -> Option<AppError> {
    if !body_fits(body) {
        Some(AppError::PageTooLarge)
    } else {
        session_id_error(id)
    }
}

/// What a request to publish `body` under the name `id` at time `now` makes
/// of the registry, and what it returns. A request that is refused leaves
/// the registry as it is.
pub open spec fn set_page_request(reg: Registry, body: Seq<char>, id: Seq<char>, now: int) -> (
    Registry,
    Result<(), AppError>,
) {
    match set_page_refusal(body, id) {
        Some(e) => (reg, Err(e)),
        None => (with_page(reg, id, body, now), Ok(())),
    }
}

/// The error with which a request of the user named `user` to answer `body`
/// in the session named `id` is refused, if it is. The session's name is
/// checked first, then the user's, then the size of the response, and only
/// then whether the session exists.
pub open spec fn respond_refusal(
    reg: Registry,
    body: Seq<char>,
    id: Seq<char>,
    user: Seq<char>,
) -> Option<AppError> {
    if session_id_error(id) is Some {
        session_id_error(id)
    } else if user_id_error(user) is Some {
        user_id_error(user)
    } else if !body_fits(body) {
        Some(AppError::ResponseTooLarge)
    } else if !reg.contains_key(id) {
        Some(AppError::SessionIDDoesNotExist)
    } else {
        None
    }
}

/// What a request to clear the responses of the session named `id` makes of
/// the registry, and what it returns. A session that does not exist is no
/// error.
pub open spec fn reset_request(reg: Registry, id: Seq<char>) -> (Registry, Result<(), AppError>) {
    match session_id_error(id) {
        Some(e) => (reg, Err(e)),
        None => (without_responses(reg, id), Ok(())),
    }
}

/// What a request of the user named `user` to answer `body` in the session
/// named `id` at time `now` makes of the registry, and what it returns. A
/// request that is refused leaves the registry as it is.
pub open spec fn respond_request(
    reg: Registry,
    body: Seq<char>,
    id: Seq<char>,
    user: Seq<char>,
    now: int,
) -> (Registry, Result<(), AppError>) {
    match respond_refusal(reg, body, id, user) {
        Some(e) => (reg, Err(e)),
        None => (with_response(reg, id, user, body, now), Ok(())),
    }
}

/// What a request for the responses of the session named `id` returns.
pub open spec fn responses_request(reg: Registry, id: Seq<char>) -> Result<
    Map<Seq<char>, Seq<char>>,
    AppError,
> {
    match session_id_error(id) {
        Some(e) => Err(e),
        None => responses_of(reg, id),
    }
}

/// Everything that a registry holds is within its limits: every session and
/// every user is named by a valid identifier, and every page and every
/// response fits.
pub open spec fn bounded(reg: Registry) -> bool {
    forall|id: Seq<char>| #[trigger]
        reg.contains_key(id) ==> {
            &&& valid_identifier(id)
            &&& body_fits(reg[id].page)
            &&& forall|user: Seq<char>| #[trigger]
                reg[id].responses.contains_key(user) ==> valid_identifier(user) && body_fits(
                    reg[id].responses[user],
                )
        }
}

} // verus!
