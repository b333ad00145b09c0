//! The requests that clients make of the registry.
//!
//! Each function takes the names as the client wrote them, validates them
//! and performs one operation of the registry. Those that record a time
//! come in two forms: one that takes the time as an argument, and one that
//! reads the system clock.

use crate::clock::{secs_to_nanos, system_time, Timestamp};
use crate::error::AppError;
use crate::ident::{SessionID, UserID};
use crate::keyed::lists;
use crate::model::{
    bounded, page_request, reset_request, respond_refusal, respond_request, responses_request,
    set_page_refusal, set_page_request, swept, MAX_BODY_BYTES,
};
use crate::registry::{byte_len, pair_texts, Sessions};
use vstd::prelude::*;

verus! {

/// The number of seconds that a session lives on after its last change.
pub const SESSION_LIFETIME_SECS: i64 = 86_400;

/// The number of seconds between two sweeps of the registry.
pub const SWEEP_INTERVAL_SECS: u64 = 3_600;

/// What the registry reports of itself.
#[derive(Debug, Clone, Copy, PartialEq, Eq, Structural)]
pub struct Stats {
    pub num_sessions: usize,
}

/// The page of the session named `session_id`.
///
/// Fails with the validation error of the name if it is not a valid
/// identifier, and with `SessionIDDoesNotExist` if there is no such session.
pub fn page_for_session(sessions: &Sessions, session_id: &str) -> (r: Result<String, AppError>)
    ensures
        bounded(sessions@),
        match r {
            Ok(page) => page_request(sessions@, session_id@) == Ok::<Seq<char>, AppError>(page@),
            Err(e) => page_request(sessions@, session_id@) == Err::<Seq<char>, AppError>(e),
        },
{
    proof {
        use_type_invariant(sessions);
    }
    match SessionID::from_string(session_id) {
        Ok(id) => sessions.get_page(&id),
        Err(e) => Err(e),
    }
}

/// Decides whether a request to publish `body` under the name `session_id`
/// is taken up, and under which identifier.
fn admit_page(body: &String, session_id: &str) -> (r: Result<SessionID, AppError>)
    ensures
        match r {
            Ok(id) => set_page_refusal(body@, session_id@) is None && id@ == session_id@,
            Err(e) => set_page_refusal(body@, session_id@) == Some(e),
        },
{
    if byte_len(body) > MAX_BODY_BYTES {
        return Err(AppError::PageTooLarge);
    }
    SessionID::from_string(session_id)
}

/// Publishes `body` under the name `session_id` at time `now`.
///
/// Fails with `PageTooLarge` if `body` has more than [`MAX_BODY_BYTES`]
/// bytes, else with the validation error of the name if it is not a valid
/// identifier; the registry then stays as it is. Otherwise the session shows
/// `body`, has no responses, and was last changed at `now`.
pub fn set_page_at(sessions: &mut Sessions, body: String, session_id: &str, now: Timestamp) -> (r:
    Result<(), AppError>)
    ensures
        bounded(final(sessions)@),
        (final(sessions)@, r) == set_page_request(
            old(sessions)@,
            body@,
            session_id@,
            now.total_nanos(),
        ),
{
    proof {
        use_type_invariant(&*sessions);
    }
    match admit_page(&body, session_id) {
        Ok(id) => sessions.set_page(id, body, now),
        Err(e) => Err(e),
    }
}

/// Publishes `body` under the name `session_id` at the time that the system
/// clock shows. The clock is read only once the request has been taken up.
///
/// Whatever the clock shows, the outcome is that of [`set_page_at`] at some
/// time.
pub fn set_page(sessions: &mut Sessions, body: String, session_id: &str) -> (r: Result<
    (),
    AppError,
>)
    ensures
        bounded(final(sessions)@),
        exists|now: int|
            (final(sessions)@, r) == #[trigger] set_page_request(
                old(sessions)@,
                body@,
                session_id@,
                now,
            ),
{
    proof {
        use_type_invariant(&*sessions);
    }
    match admit_page(&body, session_id) {
        Ok(id) => {
            let now = system_time();
            let r = sessions.set_page(id, body, now);
            assert((sessions@, r) == set_page_request(
                old(sessions)@,
                body@,
                session_id@,
                now.total_nanos(),
            ));
            r
        },
        Err(e) => {
            assert((sessions@, Err::<(), AppError>(e)) == set_page_request(
                old(sessions)@,
                body@,
                session_id@,
                0,
            ));
            Err(e)
        },
    }
}

/// Clears the responses of the session named `session_id`.
///
/// Fails with the validation error of the name if it is not a valid
/// identifier. A session that does not exist is no error: nothing happens.
pub fn reset(sessions: &mut Sessions, session_id: &str) -> (r: Result<(), AppError>)
    ensures
        bounded(final(sessions)@),
        (final(sessions)@, r) == reset_request(old(sessions)@, session_id@),
{
    proof {
        use_type_invariant(&*sessions);
    }
    match SessionID::from_string(session_id) {
        Ok(id) => {
            sessions.reset_responses(&id);
            Ok(())
        },
        Err(e) => Err(e),
    }
}

/// Decides whether a request of the user named `user_id` to answer `body`
/// in the session named `session_id` is taken up, and under which
/// identifiers.
fn admit_response(sessions: &Sessions, body: &String, session_id: &str, user_id: &str) -> (r:
    Result<(SessionID, UserID), AppError>)
    ensures
        match r {
            Ok((id, user)) => respond_refusal(sessions@, body@, session_id@, user_id@) is None
                && id@ == session_id@ && user@ == user_id@,
            Err(e) => respond_refusal(sessions@, body@, session_id@, user_id@) == Some(e),
        },
{
    let id = match SessionID::from_string(session_id) {
        Ok(id) => id,
        Err(e) => {
            return Err(e);
        },
    };
    let user = match UserID::from_string(user_id) {
        Ok(user) => user,
        Err(e) => {
            return Err(e);
        },
    };
    if byte_len(body) > MAX_BODY_BYTES {
        return Err(AppError::ResponseTooLarge);
    }
    if !sessions.contains(&id) {
        return Err(AppError::SessionIDDoesNotExist);
    }
    Ok((id, user))
}

/// Records at time `now` that the user named `user_id` answered `body` in
/// the session named `session_id`.
///
/// Fails with the validation error of the session's name, else with that of
/// the user's name, else with `ResponseTooLarge` if `body` has more than
/// [`MAX_BODY_BYTES`] bytes, else with `SessionIDDoesNotExist` if there is no
/// such session; the registry then stays as it is.
pub fn respond_at(
    sessions: &mut Sessions,
    body: String,
    session_id: &str,
    user_id: &str,
    now: Timestamp,
) -> (r: Result<(), AppError>)
    ensures
        bounded(final(sessions)@),
        (final(sessions)@, r) == respond_request(
            old(sessions)@,
            body@,
            session_id@,
            user_id@,
            now.total_nanos(),
        ),
{
    proof {
        use_type_invariant(&*sessions);
    }
    match admit_response(sessions, &body, session_id, user_id) {
        Ok((id, user)) => sessions.respond(&id, user, body, now),
        Err(e) => Err(e),
    }
}

/// Records at the time that the system clock shows that the user named
/// `user_id` answered `body` in the session named `session_id`. The clock is
/// read only once the request has been taken up.
///
/// Whatever the clock shows, the outcome is that of [`respond_at`] at some
/// time.
pub fn respond(sessions: &mut Sessions, body: String, session_id: &str, user_id: &str) -> (r:
    Result<(), AppError>)
    ensures
        bounded(final(sessions)@),
        exists|now: int|
            (final(sessions)@, r) == #[trigger] respond_request(
                old(sessions)@,
                body@,
                session_id@,
                user_id@,
                now,
            ),
{
    proof {
        use_type_invariant(&*sessions);
    }
    match admit_response(sessions, &body, session_id, user_id) {
        Ok((id, user)) => {
            let now = system_time();
            let r = sessions.respond(&id, user, body, now);
            assert((sessions@, r) == respond_request(
                old(sessions)@,
                body@,
                session_id@,
                user_id@,
                now.total_nanos(),
            ));
            r
        },
        Err(e) => {
            assert((sessions@, Err::<(), AppError>(e)) == respond_request(
                old(sessions)@,
                body@,
                session_id@,
                user_id@,
                0,
            ));
            Err(e)
        },
    }
}

/// The responses of the session named `session_id`, one pair of user and
/// response for each user that answered, in no particular order.
///
/// Fails with the validation error of the name if it is not a valid
/// identifier, and with `SessionIDDoesNotExist` if there is no such session.
pub fn responses(sessions: &Sessions, session_id: &str) -> (r: Result<
    Vec<(String, String)>,
    AppError,
>)
    ensures
        bounded(sessions@),
        match r {
            Ok(pairs) => responses_request(sessions@, session_id@) is Ok && lists(
                pair_texts(pairs@),
                responses_request(sessions@, session_id@)->Ok_0,
            ),
            Err(e) => responses_request(sessions@, session_id@) == Err::<
                Map<Seq<char>, Seq<char>>,
                AppError,
            >(e),
        },
{
    proof {
        use_type_invariant(sessions);
    }
    match SessionID::from_string(session_id) {
        Ok(id) => sessions.get_responses(&id),
        Err(e) => Err(e),
    }
}

/// The number of sessions that the registry holds.
pub fn stats(sessions: &Sessions) -> (report: Stats)
    ensures
        bounded(sessions@),
        sessions@.dom().finite(),
        report.num_sessions == sessions@.len(),
{
    Stats { num_sessions: sessions.count_sessions() }
}

/// Removes the sessions that have gone without a change for more than
/// [`SESSION_LIFETIME_SECS`] seconds at the time that the system clock shows.
///
/// Whatever the clock shows, the outcome is that of
/// [`Sessions::expire_older_than`] at some time.
pub fn clear_old_sessions(sessions: &mut Sessions)
    ensures
        bounded(final(sessions)@),
        exists|now: int|
            final(sessions)@ == #[trigger] swept(
                old(sessions)@,
                now,
                secs_to_nanos(SESSION_LIFETIME_SECS as int),
            ),
{
    let now = system_time();
    sessions.expire_older_than(now, SESSION_LIFETIME_SECS);
    assert(sessions@ == swept(
        old(sessions)@,
        now.total_nanos(),
        secs_to_nanos(SESSION_LIFETIME_SECS as int),
    ));
}

} // verus!
