use vstd::prelude::*;

use std::collections::HashMap;

verus! {

broadcast use vstd::std_specs::hash::group_hash_axioms;

/// How long a session survives without an authenticated access, in milliseconds.
pub const INACTIVITY_MS: u64 = 1_800_000;

/// The latest instant (milliseconds on the gateway's monotonic clock) the store accepts,
/// so that an expiry `instant + INACTIVITY_MS` always fits in a `u64`.
pub const MAX_INSTANT: u64 = 18_446_744_073_707_751_615;

/// The identity kept in a session once a user has logged in.
#[derive(Debug, Clone)]
pub struct SessionUser {
    pub username: String,
}

/// What the store knows of one session.
pub struct SessionState {
    pub user: Seq<char>,
    pub expires_at: u64,
}

/// The store as a mathematical value: sessions by id, and the latest instant it has seen.
pub struct StoreModel {
    pub sessions: Map<u128, SessionState>,
    pub clock: u64,
}

impl StoreModel {
    /// Every expiry lies at most one inactivity window past the latest instant seen.
    pub open spec fn wf(self) -> bool {
        &&& self.clock <= MAX_INSTANT
        &&& forall|id: u128| #[trigger]
            self.sessions.contains_key(id) ==> self.sessions[id].expires_at <= self.clock
                + INACTIVITY_MS
    }

    /// The instant an operation at `now` takes effect: the clock never runs backwards.
    pub open spec fn instant(self, now: u64) -> u64 {
        if now > self.clock {
            now
        } else {
            self.clock
        }
    }

    /// A session counts until its expiry instant has passed.
    pub open spec fn active(self, id: u128, now: u64) -> bool {
        self.sessions.contains_key(id) && self.instant(now) <= self.sessions[id].expires_at
    }

    /// The store after a session `id` for `user` was opened at `now`.
    pub open spec fn after_create(self, id: u128, user: Seq<char>, now: u64) -> StoreModel {
        StoreModel {
            sessions: self.sessions.insert(
                id,
                SessionState { user, expires_at: (self.instant(now) + INACTIVITY_MS) as u64 },
            ),
            clock: self.instant(now),
        }
    }

    /// The store after an authenticated access to `id` at `now`: a live session's expiry
    /// slides to one window past `now`; an expired one is evicted.
    pub open spec fn after_touch(self, id: u128, now: u64) -> StoreModel {
        if self.active(id, now) {
            StoreModel {
                sessions: self.sessions.insert(
                    id,
                    SessionState {
                        user: self.sessions[id].user,
                        expires_at: (self.instant(now) + INACTIVITY_MS) as u64,
                    },
                ),
                clock: self.instant(now),
            }
        } else {
            StoreModel { sessions: self.sessions.remove(id), clock: self.instant(now) }
        }
    }

    /// The store after `id` was deleted at `now`.
    pub open spec fn after_delete(self, id: u128, now: u64) -> StoreModel {
        StoreModel { sessions: self.sessions.remove(id), clock: self.instant(now) }
    }
}

/// One stored session.
pub struct Session {
    pub user: SessionUser,
    pub expires_at: u64,
}

impl Session {
    pub open spec fn state(&self) -> SessionState {
        SessionState { user: self.user.username@, expires_at: self.expires_at }
    }
}

/// An in-memory session store keyed by opaque session ids, with lazy expiry.
pub struct SessionStore {
    sessions: HashMap<u128, Session>,
    clock: u64,
}

/// Why a session could not be created.
#[derive(Debug, Clone, Copy, PartialEq, Eq, Structural)]
pub enum SessionError {
    /// A live session already holds this id.
    IdInUse,
}

impl View for SessionStore {
    type V = StoreModel;

    closed spec fn view(&self) -> StoreModel {
        StoreModel {
            sessions: self.sessions@.map_values(|s: Session| s.state()),
            clock: self.clock,
        }
    }
}

impl SessionStore {
    /// The model is well formed.
    pub closed spec fn inv(&self) -> bool {
        self@.wf()
    }

    /// An empty store whose clock starts at zero.
    pub fn new() -> (r: SessionStore)
        ensures
            r.inv(),
            r@.sessions.is_empty(),
            r@.clock == 0,
    {
        let r = SessionStore { sessions: HashMap::new(), clock: 0 };
        proof {
            assert(r@.sessions =~= Map::empty());
        }
        r
    }

    /// The number of sessions held, live or expired but not yet evicted.
    pub fn len(&self) -> (r: usize)
        requires
            self.inv(),
        ensures
            r == self@.sessions.dom().len(),
    {
        proof {
            assert(self@.sessions.dom() =~= self.sessions@.dom());
        }
        self.sessions.len()
    }

    fn instant(&self, now: u64) -> (r: u64)
        ensures
            r == self@.instant(now),
    {
        if now > self.clock {
            now
        } else {
            self.clock
        }
    }

    /// The user of session `id` if it is live at `now`; an expired session is absent even
    /// while it is still held.
    pub fn get(&self, id: u128, now: u64) -> (r: Option<SessionUser>)
        requires
            self.inv(),
        ensures
            r is Some <==> self@.active(id, now),
            r is Some ==> r->0.username@ == self@.sessions[id].user,
    {
        let t = self.instant(now);
        match self.sessions.get(&id) {
            Some(s) => {
                if t <= s.expires_at {
                    Some(SessionUser { username: s.user.username.clone() })
                } else {
                    None
                }
            },
            None => None,
        }
    }

    /// Opens session `id` for `user` at `now`, expiring one inactivity window later. An id
    /// held by a live session is refused; one held by an expired session is reused.
    pub fn create(&mut self, id: u128, user: SessionUser, now: u64) -> (r: Result<(), SessionError>)
        requires
            old(self).inv(),
            now <= MAX_INSTANT,
        ensures
            final(self).inv(),
            r is Ok <==> !old(self)@.active(id, now),
            r is Ok ==> final(self)@ == old(self)@.after_create(id, user.username@, now),
            r is Err ==> final(self)@ == old(self)@ && r == Err::<(), SessionError>(
                SessionError::IdInUse,
            ),
    {
        let t = self.instant(now);
        match self.sessions.get(&id) {
            Some(s) => {
                if t <= s.expires_at {
                    return Err(SessionError::IdInUse);
                }
            },
            None => {},
        }
        let ghost old_model = self@;
        let ghost name = user.username@;
        self.sessions.insert(id, Session { user, expires_at: t + INACTIVITY_MS });
        self.clock = t;
        proof {
            assert(self@.sessions =~= old_model.after_create(id, name, now).sessions);
        }
        Ok(())
    }

    /// Slides the expiry of a live session `id` to one inactivity window past `now`, and
    /// evicts it if it has expired. Returns whether the session was live.
    pub fn touch(&mut self, id: u128, now: u64) -> (r: bool)
        requires
            old(self).inv(),
            now <= MAX_INSTANT,
        ensures
            final(self).inv(),
            r == old(self)@.active(id, now),
            final(self)@ == old(self)@.after_touch(id, now),
    {
        let t = self.instant(now);
        let ghost old_model = self@;
        let renewed = match self.sessions.get(&id) {
            Some(s) => {
                if t <= s.expires_at {
                    Some(SessionUser { username: s.user.username.clone() })
                } else {
                    None
                }
            },
            None => None,
        };
        match renewed {
            Some(user) => {
                self.sessions.insert(id, Session { user, expires_at: t + INACTIVITY_MS });
                self.clock = t;
                proof {
                    assert(self@.sessions =~= old_model.after_touch(id, now).sessions);
                }
                true
            },
            None => {
                let _gone = self.sessions.remove(&id);
                self.clock = t;
                proof {
                    assert(self@.sessions =~= old_model.after_touch(id, now).sessions);
                }
                false
            },
        }
    }

    /// Deletes session `id`, live or expired. Returns whether it was live at `now`.
    pub fn delete(&mut self, id: u128, now: u64) -> (r: bool)
        requires
            old(self).inv(),
            now <= MAX_INSTANT,
        ensures
            final(self).inv(),
            r == old(self)@.active(id, now),
            final(self)@ == old(self)@.after_delete(id, now),
    {
        let t = self.instant(now);
        let ghost old_model = self@;
        let removed = self.sessions.remove(&id);
        self.clock = t;
        proof {
            assert(self@.sessions =~= old_model.after_delete(id, now).sessions);
        }
        match removed {
            Some(s) => t <= s.expires_at,
            None => false,
        }
    }
}

/// An authenticated access at an instant later than any the store has seen moves the
/// session's expiry strictly later.
pub proof fn renewal_extends_expiry(m: StoreModel, id: u128, now: u64)
    requires
        m.wf(),
        m.active(id, now),
        m.clock < now <= MAX_INSTANT,
    ensures
        m.after_touch(id, now).sessions[id].expires_at > m.sessions[id].expires_at,
{
}

/// A session that sees no authenticated access for longer than the inactivity window after
/// its last renewal is absent on the next access.
pub proof fn idle_session_expires(m: StoreModel, id: u128, renewed: u64, now: u64)
    requires
        m.wf(),
        renewed <= MAX_INSTANT,
        now > m.instant(renewed) + INACTIVITY_MS,
    ensures
        !m.after_touch(id, renewed).active(id, now),
{
}

} // verus!
