//! Laws of the registry.
//!
//! Each law relates several requests, and is stated over the functions of
//! [`crate::model`] in which the contracts of [`crate::handlers`] say what a
//! request does. `reg` is any registry, `t` any time.

use crate::error::AppError;
use crate::ident::{session_id_error, user_id_error, valid_identifier, MAX_ID_CHARS};
use crate::model::{
    bounded, expired, body_fits, page_request, reset_request, respond_request, responses_request,
    set_page_request, swept, Registry,
};
use vstd::prelude::*;

verus! {

/// A name passes as a session identifier, and as a user identifier, exactly
/// when it is a valid identifier; when it does not, the error is a
/// validation error that tells an empty name from one that is too long.
pub proof fn lemma_validation_of_identifiers(name: Seq<char>)
    ensures
        session_id_error(name) is None <==> valid_identifier(name),
        user_id_error(name) is None <==> valid_identifier(name),
        name.len() == 0 ==> session_id_error(name) == Some(AppError::EmptySessionID)
            && user_id_error(name) == Some(AppError::EmptyUserID),
        name.len() > MAX_ID_CHARS ==> session_id_error(name) == Some(AppError::TooLongSessionID)
            && user_id_error(name) == Some(AppError::TooLongUserID),
        session_id_error(name) matches Some(e) ==> e.is_validation(),
        user_id_error(name) matches Some(e) ==> e.is_validation(),
{
}

/// A page that was published is the page that is read: after `content` was
/// set under a valid name, a request for the page of that name returns
/// `content`.
pub proof fn lemma_page_is_read_back(reg: Registry, content: Seq<char>, id: Seq<char>, t: int)
    requires
        valid_identifier(id),
        body_fits(content),
    ensures
        set_page_request(reg, content, id, t).1 == Ok::<(), AppError>(()),
        page_request(set_page_request(reg, content, id, t).0, id) == Ok::<Seq<char>, AppError>(
            content,
        ),
{
}

/// Publishing a page starts a new round: whatever responses the session
/// held, it holds none afterwards.
pub proof fn lemma_set_page_clears_responses(
    reg: Registry,
    content: Seq<char>,
    id: Seq<char>,
    t: int,
)
    requires
        valid_identifier(id),
        body_fits(content),
    ensures
        responses_request(set_page_request(reg, content, id, t).0, id) == Ok::<
            Map<Seq<char>, Seq<char>>,
            AppError,
        >(Map::empty()),
{
}

/// Publishing a page under one name leaves every other session as it was.
pub proof fn lemma_set_page_keeps_other_sessions(
    reg: Registry,
    content: Seq<char>,
    id: Seq<char>,
    t: int,
    other: Seq<char>,
)
    requires
        other != id,
    ensures
        page_request(set_page_request(reg, content, id, t).0, other) == page_request(reg, other),
        responses_request(set_page_request(reg, content, id, t).0, other) == responses_request(
            reg,
            other,
        ),
{
}

/// Clearing the responses of a session leaves none, and leaves the page,
/// the time of the last change and every other session as they were. It
/// creates no session.
pub proof fn lemma_reset_clears_responses_only(reg: Registry, id: Seq<char>, other: Seq<char>)
    ensures
        page_request(reset_request(reg, id).0, other) == page_request(reg, other),
        reset_request(reg, id).0.dom() == reg.dom(),
        reg.contains_key(other) ==> reset_request(reg, id).0[other].last_update
            == reg[other].last_update,
        other != id ==> responses_request(reset_request(reg, id).0, other) == responses_request(
            reg,
            other,
        ),
        valid_identifier(id) && reg.contains_key(id) ==> responses_request(
            reset_request(reg, id).0,
            id,
        ) == Ok::<Map<Seq<char>, Seq<char>>, AppError>(Map::empty()),
        valid_identifier(id) ==> reset_request(reg, id).1 == Ok::<(), AppError>(()),
{
    assert(reset_request(reg, id).0.dom() =~= reg.dom());
}

/// Clearing the responses twice in a row is the same as clearing them once.
pub proof fn lemma_reset_is_idempotent(reg: Registry, id: Seq<char>)
    ensures
        reset_request(reset_request(reg, id).0, id) == reset_request(reg, id),
{
    let once = reset_request(reg, id).0;
    assert(reset_request(once, id).0 =~= once);
}

/// A response never creates a session: answering in a session that does
/// not exist fails with `SessionIDDoesNotExist` and leaves the registry as
/// it was, and no request to respond changes which sessions exist.
pub proof fn lemma_respond_creates_no_session(
    reg: Registry,
    body: Seq<char>,
    id: Seq<char>,
    user: Seq<char>,
    t: int,
)
    ensures
        respond_request(reg, body, id, user, t).0.dom() == reg.dom(),
        !reg.contains_key(id) ==> respond_request(reg, body, id, user, t).0 == reg
            && respond_request(reg, body, id, user, t).1 is Err,
        !reg.contains_key(id) && body_fits(body) && valid_identifier(id) && valid_identifier(user)
            ==> respond_request(reg, body, id, user, t).1 == Err::<(), AppError>(
            AppError::SessionIDDoesNotExist,
        ),
{
    assert(respond_request(reg, body, id, user, t).0.dom() =~= reg.dom());
}

/// A body of more than the largest size is never stored. A page that does
/// not fit is refused with `PageTooLarge` whatever the name is; a response
/// that does not fit is refused with `ResponseTooLarge` under valid names,
/// whether or not the session exists, and with the error of the names
/// otherwise. Either way the error is a validation error and the registry
/// stays as it was.
pub proof fn lemma_oversized_body_is_refused(
    reg: Registry,
    body: Seq<char>,
    id: Seq<char>,
    user: Seq<char>,
    t: int,
)
    requires
        !body_fits(body),
    ensures
        set_page_request(reg, body, id, t) == (reg, Err::<(), AppError>(AppError::PageTooLarge)),
        AppError::PageTooLarge.is_validation(),
        valid_identifier(id) && valid_identifier(user) ==> respond_request(reg, body, id, user, t)
            == (reg, Err::<(), AppError>(AppError::ResponseTooLarge)),
        AppError::ResponseTooLarge.is_validation(),
        respond_request(reg, body, id, user, t).0 == reg,
        respond_request(reg, body, id, user, t).1 matches Err(e) && e.is_validation(),
{
}

/// Names are judged before anything else in a response: under a session
/// name or a user name that is not a valid identifier, the request fails
/// with the error of the session's name, else of the user's name, whatever
/// the body is and whatever the registry holds, and the registry stays as
/// it was.
pub proof fn lemma_respond_judges_names_first(
    reg: Registry,
    body: Seq<char>,
    id: Seq<char>,
    user: Seq<char>,
    t: int,
)
    requires
        !valid_identifier(id) || !valid_identifier(user),
    ensures
        respond_request(reg, body, id, user, t).0 == reg,
        session_id_error(id) matches Some(e) ==> respond_request(reg, body, id, user, t).1
            == Err::<(), AppError>(e),
        session_id_error(id) is None ==> user_id_error(user) is Some && respond_request(
            reg,
            body,
            id,
            user,
            t,
        ).1 == Err::<(), AppError>(user_id_error(user)->Some_0),
{
}

/// A response that is taken up is the response that is read: after a user
/// with a valid name answered a body that fits in an existing session, the
/// responses of that session hold the body under the user's name.
pub proof fn lemma_response_is_read_back(
    reg: Registry,
    body: Seq<char>,
    id: Seq<char>,
    user: Seq<char>,
    t: int,
)
    requires
        valid_identifier(id),
        valid_identifier(user),
        body_fits(body),
        reg.contains_key(id),
    ensures
        respond_request(reg, body, id, user, t).1 == Ok::<(), AppError>(()),
        responses_request(respond_request(reg, body, id, user, t).0, id) == Ok::<
            Map<Seq<char>, Seq<char>>,
            AppError,
        >(reg[id].responses.insert(user, body)),
{
}

/// The later response of a user takes the place of the earlier one: after
/// two responses of the same user, the session holds the second and, of the
/// other users, what it held before.
pub proof fn lemma_later_response_wins(
    reg: Registry,
    id: Seq<char>,
    user: Seq<char>,
    first: Seq<char>,
    second: Seq<char>,
    t1: int,
    t2: int,
)
    requires
        valid_identifier(id),
        valid_identifier(user),
        body_fits(first),
        body_fits(second),
        reg.contains_key(id),
    ensures
        ({
            let once = respond_request(reg, first, id, user, t1).0;
            let twice = respond_request(once, second, id, user, t2).0;
            &&& responses_request(twice, id) == Ok::<Map<Seq<char>, Seq<char>>, AppError>(
                reg[id].responses.insert(user, second),
            )
            &&& reg[id].responses == Map::<Seq<char>, Seq<char>>::empty() ==> responses_request(
                twice,
                id,
            ) == Ok::<Map<Seq<char>, Seq<char>>, AppError>(map![user => second])
            &&& page_request(twice, id) == page_request(reg, id)
        }),
{
    let once = respond_request(reg, first, id, user, t1).0;
    let twice = respond_request(once, second, id, user, t2).0;
    assert(twice[id].responses =~= reg[id].responses.insert(user, second));
    if reg[id].responses == Map::<Seq<char>, Seq<char>>::empty() {
        assert(twice[id].responses =~= map![user => second]);
    }
}

/// The responses of two different users do not disturb each other: in
/// whichever order they are recorded, and at whatever times, the session
/// afterwards holds both, and holds the same responses and the same page.
pub proof fn lemma_responses_of_two_users_commute(
    reg: Registry,
    id: Seq<char>,
    user1: Seq<char>,
    body1: Seq<char>,
    user2: Seq<char>,
    body2: Seq<char>,
    ta: int,
    tb: int,
    tc: int,
    td: int,
)
    requires
        valid_identifier(id),
        valid_identifier(user1),
        valid_identifier(user2),
        body_fits(body1),
        body_fits(body2),
        user1 != user2,
        reg.contains_key(id),
    ensures
        ({
            let one_two = respond_request(
                respond_request(reg, body1, id, user1, ta).0,
                body2,
                id,
                user2,
                tb,
            ).0;
            let two_one = respond_request(
                respond_request(reg, body2, id, user2, tc).0,
                body1,
                id,
                user1,
                td,
            ).0;
            &&& responses_request(one_two, id) == responses_request(two_one, id)
            &&& page_request(one_two, id) == page_request(two_one, id)
            &&& responses_request(one_two, id) matches Ok(held) && held.contains_key(user1)
                && held[user1] == body1 && held.contains_key(user2) && held[user2] == body2
            &&& one_two.dom() == two_one.dom()
        }),
{
    let one_two = respond_request(
        respond_request(reg, body1, id, user1, ta).0,
        body2,
        id,
        user2,
        tb,
    ).0;
    let two_one = respond_request(
        respond_request(reg, body2, id, user2, tc).0,
        body1,
        id,
        user1,
        td,
    ).0;
    assert(one_two[id].responses =~= two_one[id].responses);
    assert(one_two.dom() =~= two_one.dom());
}

/// A sweep removes exactly the sessions that have expired. An expired
/// session is gone for every later request and is no longer counted; a
/// session that has not expired stays as it was.
pub proof fn lemma_sweep_removes_the_expired(reg: Registry, now: int, lifetime: int, id: Seq<char>)
    requires
        reg.dom().finite(),
    ensures
        swept(reg, now, lifetime).dom().finite(),
        swept(reg, now, lifetime).len() <= reg.len(),
        swept(reg, now, lifetime).contains_key(id) <==> reg.contains_key(id) && !expired(
            reg[id],
            now,
            lifetime,
        ),
        swept(reg, now, lifetime).contains_key(id) ==> swept(reg, now, lifetime)[id] == reg[id],
        reg.contains_key(id) && expired(reg[id], now, lifetime) && valid_identifier(id) ==> {
            &&& page_request(swept(reg, now, lifetime), id) == Err::<Seq<char>, AppError>(
                AppError::SessionIDDoesNotExist,
            )
            &&& responses_request(swept(reg, now, lifetime), id) == Err::<
                Map<Seq<char>, Seq<char>>,
                AppError,
            >(AppError::SessionIDDoesNotExist)
            &&& swept(reg, now, lifetime).len() < reg.len()
        },
        reg.contains_key(id) && !expired(reg[id], now, lifetime) ==> {
            &&& page_request(swept(reg, now, lifetime), id) == page_request(reg, id)
            &&& responses_request(swept(reg, now, lifetime), id) == responses_request(reg, id)
        },
{
    let after = swept(reg, now, lifetime);
    assert(after.dom().subset_of(reg.dom()));
    vstd::set_lib::lemma_len_subset(after.dom(), reg.dom());
    if reg.contains_key(id) && expired(reg[id], now, lifetime) {
        assert(after.dom().subset_of(reg.dom().remove(id)));
        vstd::set_lib::lemma_len_subset(after.dom(), reg.dom().remove(id));
    }
}

/// Every request keeps what the registry holds within its limits: no
/// request stores a name that is not a valid identifier, nor a page or a
/// response that does not fit.
pub proof fn lemma_requests_keep_bounds(
    reg: Registry,
    body: Seq<char>,
    id: Seq<char>,
    user: Seq<char>,
    now: int,
    lifetime: int,
)
    requires
        bounded(reg),
    ensures
        bounded(set_page_request(reg, body, id, now).0),
        bounded(reset_request(reg, id).0),
        bounded(respond_request(reg, body, id, user, now).0),
        bounded(swept(reg, now, lifetime)),
{
}

} // verus!
