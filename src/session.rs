use vstd::prelude::*;
use crate::user::User;

verus! {

/// Seconds of inactivity after which a session expires (one day, sliding).
pub const SESSION_INACTIVITY_SECS: i64 = 86400;

/// Server-side state of one session.
///
/// A session is anonymous when it binds no user, and authenticated when it
/// binds a user id together with that user's session-authentication secret
/// as it was at login. The two are set and cleared together.
#[derive(Debug, PartialEq, Eq)]
pub struct Session {
    pub user_id: Option<i64>,
    pub auth_hash: Option<[u8; 16]>,
    /// Time of the last request that used the session, in seconds since the
    /// Unix epoch.
    pub last_activity: i64,
}

impl Session {
    /// The user id and the secret are bound together or not at all.
    pub open spec fn wf(&self) -> bool {
        self.user_id is Some <==> self.auth_hash is Some
    }

    /// No request has used the session for longer than the window.
    pub open spec fn expired_at(&self, now: i64) -> bool {
        now - self.last_activity > SESSION_INACTIVITY_SECS
    }
}

/// The session after `user` logs in at `now`, whatever it was before: bound
/// to the user and its current secret, and active at `now`.
pub open spec fn login_spec(user: User, now: i64) -> Session {
    Session { user_id: Some(user.id), auth_hash: Some(user.skey), last_activity: now }
}

/// The session after a logout: anonymous, the session itself kept.
pub open spec fn logout_spec(s: Session) -> Session {
    Session { user_id: None, auth_hash: None, last_activity: s.last_activity }
}

/// The user that a request on session `s` at time `now` acts as, given
/// `fetched`, the directory's user for the bound id at that time: none when
/// the session has expired, is anonymous, or binds a user that no longer
/// exists or whose secret has changed since login.
pub open spec fn principal_of(s: Session, fetched: Option<User>, now: i64) -> Option<User> {
    if s.expired_at(now) {
        None
    } else {
        match (s.user_id, fetched) {
            (Some(id), Some(u)) => if u.id == id && s.auth_hash == Some(u.skey) {
                Some(u)
            } else {
                None
            },
            _ => None,
        }
    }
}

/// The session after that request: cleared if expired or if the bound
/// user's secret no longer matches, and in any case marked active at `now`.
pub open spec fn resolved_session(s: Session, fetched: Option<User>, now: i64) -> Session {
    let cleared = if s.expired_at(now) {
        true
    } else {
        match (s.user_id, fetched) {
            (Some(id), Some(u)) => !(u.id == id && s.auth_hash == Some(u.skey)),
            _ => false,
        }
    };
    if cleared {
        Session { user_id: None, auth_hash: None, last_activity: now }
    } else {
        Session { last_activity: now, ..s }
    }
}

/// Compares two secrets, visiting every byte whatever the earlier bytes were.
pub fn secrets_equal(a: &[u8; 16], b: &[u8; 16]) -> (r: bool)
    ensures
        r == (*a == *b),
{
    let mut same = true;
    let mut i: usize = 0;
    while i < 16
        invariant
            i <= 16,
            same == forall|k: int| 0 <= k < i ==> a[k] == b[k],
        decreases 16 - i,
    {
        let eq = a[i] == b[i];
        same = if eq { same } else { false };
        i = i + 1;
    }
    proof {
        if same {
            assert(*a =~= *b);
        }
    }
    same
}

impl Session {
    /// A new anonymous session, first used at `now`.
    pub fn new(now: i64) -> (r: Session)
        ensures
            r.wf(),
            r.user_id is None,
            r.last_activity == now,
    {
        Session { user_id: None, auth_hash: None, last_activity: now }
    }

    /// Whether the session has been idle for longer than the window at
    /// `now`; an expired session behaves as an absent one.
    pub fn is_expired(&self, now: i64) -> (r: bool)
        ensures
            r == self.expired_at(now),
    {
        (now as i128) - (self.last_activity as i128) > SESSION_INACTIVITY_SECS as i128
    }

    /// Whether the session is bound to a user.
    pub fn is_authenticated(&self) -> (r: bool)
        ensures
            r == self.user_id is Some,
    {
        self.user_id.is_some()
    }

    /// Binds `user` to the session, with the user's current secret; the
    /// login counts as activity at `now`.
    pub fn login(&mut self, user: &User, now: i64)
        ensures
            *final(self) == login_spec(*user, now),
            final(self).wf(),
    {
        self.user_id = Some(user.id);
        self.auth_hash = Some(user.skey);
        self.last_activity = now;
    }

    /// Clears the bound user; the session itself persists, anonymous.
    pub fn logout(&mut self)
        ensures
            *final(self) == logout_spec(*old(self)),
            final(self).wf(),
    {
        self.user_id = None;
        self.auth_hash = None;
    }

    /// Validates the session for a request at `now`, given the user that the
    /// directory holds for the bound id (`None` if none is bound or the user
    /// is gone), and returns the principal the request acts as.
    ///
    /// The two checks stay separate: expiry by inactivity, then the match of
    /// the recorded secret against the user's current one. A failed check
    /// clears the binding.
    pub fn resolve(&mut self, fetched: Option<User>, now: i64) -> (r: Option<User>)
        requires
            old(self).wf(),
        ensures
            r == principal_of(*old(self), fetched, now),
            *final(self) == resolved_session(*old(self), fetched, now),
            final(self).wf(),
    {
        let expired = self.is_expired(now);
        let r = if expired {
            self.user_id = None;
            self.auth_hash = None;
            None
        } else {
            match (self.user_id, fetched) {
                (Some(id), Some(u)) => {
                    let same_secret = match self.auth_hash {
                        Some(h) => secrets_equal(&h, &u.skey),
                        None => false,
                    };
                    if u.id == id && same_secret {
                        Some(u)
                    } else {
                        self.user_id = None;
                        self.auth_hash = None;
                        None
                    }
                },
                _ => None,
            }
        };
        self.last_activity = now;
        r
    }
}

} // verus!
