use vstd::prelude::*;

use crate::outcome::{status_of, Outcome};
use crate::session::{SessionStore, SessionUser, StoreModel, INACTIVITY_MS, MAX_INSTANT};

verus! {

/// Whether a request carrying `id` holds a live session at `now`.
pub open spec fn has_live_session(m: StoreModel, id: Option<u128>, now: u64) -> bool {
    id is Some && m.active(id->0, now)
}

/// The store after the session guard ran for a request carrying `id`.
pub open spec fn after_guard(m: StoreModel, id: Option<u128>, now: u64) -> StoreModel {
    match id {
        Some(x) => m.after_touch(x, now),
        None => m,
    }
}

/// The store after a logout request carrying `id`: a live session is renewed by the guard
/// and then deleted; without one only the guard has run.
pub open spec fn after_logout(m: StoreModel, id: Option<u128>, now: u64) -> StoreModel {
    if has_live_session(m, id, now) {
        after_guard(m, id, now).after_delete(id->0, now)
    } else {
        after_guard(m, id, now)
    }
}

/// The status a logout request carrying `id` is answered with.
pub open spec fn logout_status(m: StoreModel, id: Option<u128>, now: u64) -> u16 {
    if has_live_session(m, id, now) {
        200
    } else {
        401
    }
}

/// The health endpoint always answers 200, whatever the session state.
pub fn health_check() -> (r: u16)
    ensures
        r == 200,
{
    200
}

/// The session guard: a request carrying the id of a live session passes, and that session's
/// expiry slides to one inactivity window past `now`; any other request is refused with
/// `AuthRequired`, and the protected handler must not run.
pub fn auth_guard(store: &mut SessionStore, id: Option<u128>, now: u64) -> (r: Result<
    SessionUser,
    Outcome,
>)
    requires
        old(store).inv(),
        now <= MAX_INSTANT,
    ensures
        final(store).inv(),
        final(store)@ == after_guard(old(store)@, id, now),
        r is Ok <==> has_live_session(old(store)@, id, now),
        r is Ok ==> r->Ok_0.username@ == old(store)@.sessions[id->0].user,
        r is Err ==> r == Err::<SessionUser, Outcome>(Outcome::AuthRequired),
{
    match id {
        Some(x) => {
            let user = store.get(x, now);
            let _live = store.touch(x, now);
            match user {
                Some(u) => Ok(u),
                None => Err(Outcome::AuthRequired),
            }
        },
        None => Err(Outcome::AuthRequired),
    }
}

/// Opens a session `id` for `username` at `now`. A live session already under that id
/// leaves the store as it was and answers `StoreUnavailable`.
pub fn login(store: &mut SessionStore, id: u128, username: String, now: u64) -> (r: Outcome)
    requires
        old(store).inv(),
        now <= MAX_INSTANT,
    ensures
        final(store).inv(),
        r == Outcome::Served <==> !old(store)@.active(id, now),
        r == Outcome::Served ==> final(store)@ == old(store)@.after_create(id, username@, now),
        r != Outcome::Served ==> r == Outcome::StoreUnavailable && final(store)@ == old(store)@,
{
    match store.create(id, SessionUser { username }, now) {
        Ok(()) => Outcome::Served,
        Err(_) => Outcome::StoreUnavailable,
    }
}

/// Ends the session a request carries. Only a live session can be logged out: without one
/// the guard answers `AuthRequired`.
pub fn logout(store: &mut SessionStore, id: Option<u128>, now: u64) -> (r: Outcome)
    requires
        old(store).inv(),
        now <= MAX_INSTANT,
    ensures
        final(store).inv(),
        final(store)@ == after_logout(old(store)@, id, now),
        status_of(r) == logout_status(old(store)@, id, now),
        r == Outcome::Served || r == Outcome::AuthRequired,
{
    match auth_guard(store, id, now) {
        Ok(_) => {
            let x = id.unwrap();
            let _was_live = store.delete(x, now);
            Outcome::Served
        },
        Err(e) => e,
    }
}

/// Logging in and then logging out with the session id handed back succeeds while the session
/// is live; presenting the same id to logout again is refused.
pub proof fn logout_cannot_be_replayed(
    m: StoreModel,
    id: u128,
    user: Seq<char>,
    t_login: u64,
    t_logout: u64,
    t_replay: u64,
)
    requires
        m.wf(),
        !m.active(id, t_login),
        t_login <= MAX_INSTANT,
        t_logout <= MAX_INSTANT,
        t_replay <= MAX_INSTANT,
        t_logout <= m.instant(t_login) + INACTIVITY_MS,
    ensures
        logout_status(m.after_create(id, user, t_login), Some(id), t_logout) == 200,
        logout_status(
            after_logout(m.after_create(id, user, t_login), Some(id), t_logout),
            Some(id),
            t_replay,
        ) == 401,
{
}

} // verus!
