use vstd::prelude::*;

verus! {

/// How long a session lives after its last write, in seconds (two hours).
pub const SESSION_TTL_SECONDS: u64 = 7200;

/// What a successful token exchange leaves behind in the session.
pub struct AuthenticatedIdentity {
    pub subject: Option<String>,
    pub access_token: String,
    pub refresh_token: Option<String>,
    pub expires_in: u64,
}

pub ghost struct IdentityView {
    pub subject: Option<Seq<char>>,
    pub access_token: Seq<char>,
    pub refresh_token: Option<Seq<char>>,
    pub expires_in: u64,
}

impl View for AuthenticatedIdentity {
    type V = IdentityView;

    open spec fn view(&self) -> IdentityView {
        IdentityView {
            subject: crate::config::opt_str_view(self.subject),
            access_token: self.access_token@,
            refresh_token: crate::config::opt_str_view(self.refresh_token),
            expires_in: self.expires_in,
        }
    }
}

/// One session: the pending-login pair, the identity once authenticated, and
/// the store's own timestamps.
pub struct Session {
    pub state_value: Option<String>,
    pub code_verifier: Option<String>,
    pub identity: Option<AuthenticatedIdentity>,
    pub created_at: u64,
    pub expires_at: u64,
}

pub ghost struct SessionView {
    pub state_value: Option<Seq<char>>,
    pub code_verifier: Option<Seq<char>>,
    pub identity: Option<IdentityView>,
    pub created_at: u64,
    pub expires_at: u64,
}

impl View for Session {
    type V = SessionView;

    open spec fn view(&self) -> SessionView {
        SessionView {
            state_value: crate::config::opt_str_view(self.state_value),
            code_verifier: crate::config::opt_str_view(self.code_verifier),
            identity: match self.identity {
                Some(id) => Some(id@),
                None => None,
            },
            created_at: self.created_at,
            expires_at: self.expires_at,
        }
    }
}

/// The anti-forgery state and the PKCE verifier stand or fall together.
pub open spec fn pair_consistent(s: SessionView) -> bool {
    s.state_value is Some <==> s.code_verifier is Some
}

/// A session is read as existing only before its expiry time.
pub open spec fn session_live(s: SessionView, now: u64) -> bool {
    now < s.expires_at
}

/// Every stored session keeps its pending pair consistent.
pub open spec fn store_wf(v: Seq<Option<SessionView>>) -> bool {
    forall|i: int|
        0 <= i < v.len() && (#[trigger] v[i]) is Some ==> pair_consistent(v[i]->0)
}

/// The slot a handle points at; handles outside the store are empty slots.
pub open spec fn slot_view(v: Seq<Option<SessionView>>, h: int) -> Option<SessionView> {
    if 0 <= h < v.len() {
        v[h]
    } else {
        None
    }
}

pub open spec fn opt_session_view(s: Option<Session>) -> Option<SessionView> {
    match s {
        Some(x) => Some(x@),
        None => None,
    }
}

/// A freshly created session: no pending login, no identity.
pub open spec fn fresh_session_view(now: u64) -> SessionView {
    SessionView {
        state_value: None,
        code_verifier: None,
        identity: None,
        created_at: now,
        expires_at: (now + SESSION_TTL_SECONDS) as u64,
    }
}

/// The session after a pending pair was written: both halves set as a unit.
/// A live session keeps its identity and creation time; an expired or
/// destroyed slot is re-created from scratch.
pub open spec fn pending_session_view(
    prev: Option<SessionView>,
    state: Seq<char>,
    verifier: Seq<char>,
    now: u64,
) -> SessionView {
    SessionView {
        state_value: Some(state),
        code_verifier: Some(verifier),
        identity: if prev matches Some(p) && session_live(p, now) {
            prev->0.identity
        } else {
            None
        },
        created_at: if prev matches Some(p) && session_live(p, now) {
            prev->0.created_at
        } else {
            now
        },
        expires_at: (now + SESSION_TTL_SECONDS) as u64,
    }
}

/// The session after its pending pair was consumed: both halves cleared as a
/// unit, identity untouched, expiry refreshed by the write.
pub open spec fn cleared_session_view(s: SessionView, now: u64) -> SessionView {
    SessionView {
        state_value: None,
        code_verifier: None,
        identity: s.identity,
        created_at: s.created_at,
        expires_at: (now + SESSION_TTL_SECONDS) as u64,
    }
}

/// There is a pending pair to consume: the slot holds a live session whose
/// pair is present.
pub open spec fn pending_consumable(s: Option<SessionView>, now: u64) -> bool {
    &&& s is Some
    &&& session_live(s->0, now)
    &&& s->0.state_value is Some
    &&& s->0.code_verifier is Some
}

/// The in-process session store: one slot per handle.  A destroyed session
/// leaves an empty slot behind, so a handle is never re-issued for another
/// session's data.
pub struct SessionStore {
    sessions: Vec<Option<Session>>,
}

impl View for SessionStore {
    type V = Seq<Option<SessionView>>;

    closed spec fn view(&self) -> Seq<Option<SessionView>> {
        self.sessions@.map_values(|s: Option<Session>| opt_session_view(s))
    }
}

impl SessionStore {
    pub fn new() -> (r: SessionStore)
        ensures
            r@ == Seq::<Option<SessionView>>::empty(),
            store_wf(r@),
    {
        let r = SessionStore { sessions: Vec::new() };
        proof {
            assert(r@ =~= Seq::<Option<SessionView>>::empty());
        }
        r
    }

    /// How many handles have been issued.
    pub fn handle_count(&self) -> (n: usize)
        ensures
            n == self@.len(),
    {
        self.sessions.len()
    }

    /// Creates a fresh session and returns its handle.
    pub fn create(&mut self, now: u64) -> (h: usize)
        requires
            old(self)@.len() < usize::MAX,
            now + SESSION_TTL_SECONDS <= u64::MAX,
        ensures
            h == old(self)@.len(),
            final(self)@ == old(self)@.push(Some(fresh_session_view(now))),
            store_wf(old(self)@) ==> store_wf(final(self)@),
    {
        let h = self.sessions.len();
        self.sessions.push(
            Some(
                Session {
                    state_value: None,
                    code_verifier: None,
                    identity: None,
                    created_at: now,
                    expires_at: now + SESSION_TTL_SECONDS,
                },
            ),
        );
        proof {
            assert(self@ =~= old(self)@.push(Some(fresh_session_view(now))));
        }
        h
    }

    /// Removes the session behind a handle; the handle stays dead afterwards.
    pub(crate) fn destroy(&mut self, h: usize)
        ensures
            h < old(self)@.len() ==> final(self)@ == old(self)@.update(
                h as int,
                None::<SessionView>,
            ),
            h >= old(self)@.len() ==> final(self)@ == old(self)@,
            store_wf(old(self)@) ==> store_wf(final(self)@),
    {
        if h < self.sessions.len() {
            self.sessions[h] = None;
            proof {
                assert(self@ =~= old(self)@.update(h as int, None::<SessionView>));
            }
        } else {
            proof {
                assert(self@ =~= old(self)@);
            }
        }
    }

    /// Writes the pending-login pair, both halves as one observable unit, and
    /// refreshes the session's expiry.
    pub fn set_pending(&mut self, h: usize, state: String, verifier: String, now: u64)
        requires
            h < old(self)@.len(),
            now + SESSION_TTL_SECONDS <= u64::MAX,
        ensures
            final(self)@ == old(self)@.update(
                h as int,
                Some(pending_session_view(old(self)@[h as int], state@, verifier@, now)),
            ),
            store_wf(old(self)@) ==> store_wf(final(self)@),
    {
        let live = match &self.sessions[h] {
            Some(s) => now < s.expires_at,
            None => false,
        };
        if live {
            let slot = &mut self.sessions[h];
            match slot {
                Some(sess) => {
                    sess.state_value = Some(state);
                    sess.code_verifier = Some(verifier);
                    sess.expires_at = now + SESSION_TTL_SECONDS;
                },
                None => {
                    proof {
                        assert(false);
                    }
                },
            }
        } else {
            self.sessions[h] = Some(
                Session {
                    state_value: Some(state),
                    code_verifier: Some(verifier),
                    identity: None,
                    created_at: now,
                    expires_at: now + SESSION_TTL_SECONDS,
                },
            );
        }
        proof {
            assert(self@ =~= old(self)@.update(
                h as int,
                Some(pending_session_view(old(self)@[h as int], state@, verifier@, now)),
            ));
        }
    }

    /// Consumes the pending pair: if the handle holds a live session with a
    /// pair, both halves are cleared as one unit and handed back; otherwise
    /// nothing changes.
    pub fn take_pending(&mut self, h: usize, now: u64) -> (r: Option<(String, String)>)
        requires
            now + SESSION_TTL_SECONDS <= u64::MAX,
        ensures
            r is Some <==> pending_consumable(slot_view(old(self)@, h as int), now),
            r matches Some(p) ==> ({
                let s = old(self)@[h as int]->0;
                &&& p.0@ == s.state_value->0
                &&& p.1@ == s.code_verifier->0
                &&& final(self)@ == old(self)@.update(h as int, Some(cleared_session_view(s, now)))
            }),
            r is None ==> final(self)@ == old(self)@,
            store_wf(old(self)@) ==> store_wf(final(self)@),
    {
        if h >= self.sessions.len() {
            return None;
        }
        let ready = match &self.sessions[h] {
            Some(s) => now < s.expires_at && s.state_value.is_some() && s.code_verifier.is_some(),
            None => false,
        };
        if !ready {
            return None;
        }
        let slot = &mut self.sessions[h];
        match slot {
            Some(sess) => {
                let st = sess.state_value.take();
                let vf = sess.code_verifier.take();
                sess.expires_at = now + SESSION_TTL_SECONDS;
                match (st, vf) {
                    (Some(a), Some(b)) => {
                        proof {
                            assert(self@ =~= old(self)@.update(
                                h as int,
                                Some(cleared_session_view(old(self)@[h as int]->0, now)),
                            ));
                        }
                        Some((a, b))
                    },
                    _ => {
                        proof {
                            assert(false);
                        }
                        None
                    },
                }
            },
            None => {
                proof {
                    assert(false);
                }
                None
            },
        }
    }

    /// Records the authenticated identity after a successful exchange; only
    /// the callback validator calls this.
    pub(crate) fn set_identity(&mut self, h: usize, id: AuthenticatedIdentity, now: u64) -> (r:
        bool)
        requires
            now + SESSION_TTL_SECONDS <= u64::MAX,
        ensures
            r == ({
                let s = slot_view(old(self)@, h as int);
                s is Some && session_live(s->0, now)
            }),
            r ==> final(self)@ == old(self)@.update(
                h as int,
                Some(
                    SessionView {
                        state_value: old(self)@[h as int]->0.state_value,
                        code_verifier: old(self)@[h as int]->0.code_verifier,
                        identity: Some(id@),
                        created_at: old(self)@[h as int]->0.created_at,
                        expires_at: (now + SESSION_TTL_SECONDS) as u64,
                    },
                ),
            ),
            !r ==> final(self)@ == old(self)@,
            store_wf(old(self)@) ==> store_wf(final(self)@),
    {
        if h >= self.sessions.len() {
            return false;
        }
        let live = match &self.sessions[h] {
            Some(s) => now < s.expires_at,
            None => false,
        };
        if !live {
            return false;
        }
        let slot = &mut self.sessions[h];
        match slot {
            Some(sess) => {
                sess.identity = Some(id);
                sess.expires_at = now + SESSION_TTL_SECONDS;
                proof {
                    assert(self@ =~= old(self)@.update(
                        h as int,
                        Some(
                            SessionView {
                                state_value: old(self)@[h as int]->0.state_value,
                                code_verifier: old(self)@[h as int]->0.code_verifier,
                                identity: Some(id@),
                                created_at: old(self)@[h as int]->0.created_at,
                                expires_at: (now + SESSION_TTL_SECONDS) as u64,
                            },
                        ),
                    ));
                }
                true
            },
            None => {
                proof {
                    assert(false);
                }
                false
            },
        }
    }

    /// The stored state of the pending login, read as the flow reads it: an
    /// expired or destroyed session shows nothing.
    pub fn state_value(&self, h: usize, now: u64) -> (r: Option<&String>)
        ensures
            match r {
                Some(s) => has_live_state(self@, h as int, now) && slot_view(
                    self@,
                    h as int,
                )->0.state_value == Some(s@),
                None => !has_live_state(self@, h as int, now),
            },
    {
        if h >= self.sessions.len() {
            return None;
        }
        match &self.sessions[h] {
            Some(s) => {
                if now < s.expires_at {
                    s.state_value.as_ref()
                } else {
                    None
                }
            },
            None => None,
        }
    }

    /// The stored PKCE verifier of the pending login, under the same reading.
    pub fn code_verifier(&self, h: usize, now: u64) -> (r: Option<&String>)
        ensures
            match r {
                Some(s) => has_live_verifier(self@, h as int, now) && slot_view(
                    self@,
                    h as int,
                )->0.code_verifier == Some(s@),
                None => !has_live_verifier(self@, h as int, now),
            },
    {
        if h >= self.sessions.len() {
            return None;
        }
        match &self.sessions[h] {
            Some(s) => {
                if now < s.expires_at {
                    s.code_verifier.as_ref()
                } else {
                    None
                }
            },
            None => None,
        }
    }

    /// The authenticated identity, if the session is live and has one.
    pub fn identity(&self, h: usize, now: u64) -> (r: Option<&AuthenticatedIdentity>)
        ensures
            match r {
                Some(id) => has_live_identity(self@, h as int, now) && slot_view(
                    self@,
                    h as int,
                )->0.identity == Some(id@),
                None => !has_live_identity(self@, h as int, now),
            },
    {
        if h >= self.sessions.len() {
            return None;
        }
        match &self.sessions[h] {
            Some(s) => {
                if now < s.expires_at {
                    s.identity.as_ref()
                } else {
                    None
                }
            },
            None => None,
        }
    }
}

/// A live session under the handle holds a state value.
pub open spec fn has_live_state(v: Seq<Option<SessionView>>, h: int, now: u64) -> bool {
    &&& slot_view(v, h) is Some
    &&& session_live(slot_view(v, h)->0, now)
    &&& slot_view(v, h)->0.state_value is Some
}

/// A live session under the handle holds a PKCE verifier.
pub open spec fn has_live_verifier(v: Seq<Option<SessionView>>, h: int, now: u64) -> bool {
    &&& slot_view(v, h) is Some
    &&& session_live(slot_view(v, h)->0, now)
    &&& slot_view(v, h)->0.code_verifier is Some
}

/// A live session under the handle holds an identity.
pub open spec fn has_live_identity(v: Seq<Option<SessionView>>, h: int, now: u64) -> bool {
    &&& slot_view(v, h) is Some
    &&& session_live(slot_view(v, h)->0, now)
    &&& slot_view(v, h)->0.identity is Some
}

} // verus!
