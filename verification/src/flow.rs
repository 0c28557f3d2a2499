use vstd::prelude::*;
use crate::config::ClientConfig;
use crate::errors::LoginError;
use crate::session::{
    cleared_session_view, pending_consumable, pending_session_view, session_live, slot_view,
    store_wf, AuthenticatedIdentity, IdentityView, SessionStore, SessionView, SESSION_TTL_SECONDS,
};
use crate::pkce::pkce_challenge_of;
use crate::urlenc::authorization_uri_spec;

verus! {

/// What the authorization server's redirect hands the callback endpoint.
pub struct LoginRedirect {
    pub code: String,
    pub user_state: String,
}

/// What a validated callback hands the token exchanger: the authorization
/// code together with the verifier that was stored for this session.
pub struct PendingExchange {
    pub code: String,
    pub code_verifier: String,
}

/// What the lifecycle manager hands the caller when an upstream revocation
/// should be attempted before the session is destroyed.
pub struct RevocationRequest {
    pub endpoint: String,
    pub token: String,
}

/// The decision a callback comes to, as a function of the stored session, the
/// echoed state, and the time: the consumed verifier on success, the failure
/// reason otherwise.
pub open spec fn callback_outcome(s: Option<SessionView>, user_state: Seq<char>, now: u64) -> Result<
    Seq<char>,
    LoginError,
> {
    if !pending_consumable(s, now) {
        Result::Err(LoginError::NoPendingLogin)
    } else if user_state != s->0.state_value->0 {
        Result::Err(LoginError::StateMismatch)
    } else {
        Result::Ok(s->0.code_verifier->0)
    }
}

/// The session a callback leaves behind: whenever a pending pair was there to
/// consume, it is cleared — before any exchange, and also on a state
/// mismatch — so a pair is consumed at most once.
pub open spec fn session_after_callback(s: Option<SessionView>, now: u64) -> Option<SessionView> {
    if pending_consumable(s, now) {
        Some(cleared_session_view(s->0, now))
    } else {
        s
    }
}

/// Starts a login attempt with the given state token and PKCE verifier: the
/// pair is persisted into the session first, as one unit, and only then is
/// the redirect URI built, so every emitted URI matches a stored pair.
pub fn initiate_login_with(
    store: &mut SessionStore,
    h: usize,
    config: &ClientConfig,
    state: String,
    verifier: String,
    now: u64,
) -> (r: String)
    requires
        h < old(store)@.len(),
        config.wf(),
        vstd::utf8::is_ascii_chars(state@),
        vstd::utf8::is_ascii_chars(verifier@),
        now + SESSION_TTL_SECONDS <= u64::MAX,
    ensures
        final(store)@ == old(store)@.update(
            h as int,
            Some(pending_session_view(old(store)@[h as int], state@, verifier@, now)),
        ),
        r@ == authorization_uri_spec(config@, state@, pkce_challenge_of(verifier@)),
        store_wf(old(store)@) ==> store_wf(final(store)@),
{
    store.set_pending(h, state.clone(), verifier.clone(), now);
    let challenge = crate::pkce::derive_challenge(verifier.as_str());
    proof {
        crate::b64::lemma_b64url_chars_ascii(challenge@);
    }
    crate::urlenc::build_authorization_uri(config, state.as_str(), challenge.as_str())
}

/// Starts a login attempt with freshly generated material and returns the
/// redirect URI.  The session ends up holding the very state and verifier
/// that the URI's `state` and (derived) `code_challenge` were built from.
pub fn initiate_login(store: &mut SessionStore, h: usize, config: &ClientConfig, now: u64) -> (r:
    String)
    requires
        h < old(store)@.len(),
        config.wf(),
        now + SESSION_TTL_SECONDS <= u64::MAX,
    ensures
        final(store)@.len() == old(store)@.len(),
        forall|i: int|
            0 <= i < old(store)@.len() && i != h as int ==> final(store)@[i] == old(store)@[i],
        ({
            let s = slot_view(final(store)@, h as int);
            &&& s is Some
            &&& s->0.state_value is Some
            &&& s->0.state_value->0.len() == 22
            &&& crate::b64::all_b64url_chars(s->0.state_value->0)
            &&& s->0.code_verifier is Some
            &&& s->0.code_verifier->0.len() == 43
            &&& crate::b64::all_b64url_chars(s->0.code_verifier->0)
            &&& r@ == authorization_uri_spec(
                config@,
                s->0.state_value->0,
                pkce_challenge_of(s->0.code_verifier->0),
            )
            &&& s->0 == pending_session_view(
                old(store)@[h as int],
                s->0.state_value->0,
                s->0.code_verifier->0,
                now,
            )
        }),
        store_wf(old(store)@) ==> store_wf(final(store)@),
{
    let state = crate::pkce::random_state_token();
    let verifier = crate::pkce::random_pkce_verifier();
    proof {
        crate::b64::lemma_b64url_chars_ascii(state@);
        crate::b64::lemma_b64url_chars_ascii(verifier@);
    }
    initiate_login_with(store, h, config, state, verifier, now)
}

/// Validates an inbound callback against the session and consumes the
/// pending pair.  On a state match the caller gets the authorization code
/// and the stored verifier to exchange; the pair is cleared before any
/// exchange can happen, and equally on a mismatch, so no pair is ever
/// consumed twice.  The comparison itself runs in constant time per length
/// and its outcome is reported only as the generic mismatch error.
pub fn begin_callback(
    store: &mut SessionStore,
    h: usize,
    login: &LoginRedirect,
    now: u64,
) -> (r: Result<PendingExchange, LoginError>)
    requires
        now + SESSION_TTL_SECONDS <= u64::MAX,
    ensures
        final(store)@.len() == old(store)@.len(),
        forall|i: int|
            0 <= i < old(store)@.len() && i != h as int ==> final(store)@[i] == old(store)@[i],
        slot_view(final(store)@, h as int) == session_after_callback(
            slot_view(old(store)@, h as int),
            now,
        ),
        r is Ok <==> callback_outcome(slot_view(old(store)@, h as int), login.user_state@, now)
            is Ok,
        r matches Ok(p) ==> p.code@ == login.code@ && Result::<Seq<char>, LoginError>::Ok(
            p.code_verifier@,
        ) == callback_outcome(slot_view(old(store)@, h as int), login.user_state@, now),
        r matches Err(e) ==> Result::<Seq<char>, LoginError>::Err(e) == callback_outcome(
            slot_view(old(store)@, h as int),
            login.user_state@,
            now,
        ),
        store_wf(old(store)@) ==> store_wf(final(store)@),
{
    match store.take_pending(h, now) {
        None => Result::Err(LoginError::NoPendingLogin),
        Some((state, verifier)) => {
            if crate::strutil::ct_str_eq(login.user_state.as_str(), state.as_str()) {
                Result::Ok(PendingExchange { code: login.code.clone(), code_verifier: verifier })
            } else {
                Result::Err(LoginError::StateMismatch)
            }
        },
    }
}

/// Checks the token endpoint's reply for the required fields: an identity is
/// formed exactly when an access token and an expiry are both present.
pub fn validate_token_response(
    access_token: Option<String>,
    expires_in: Option<u64>,
    refresh_token: Option<String>,
    subject: Option<String>,
) -> (r: Option<AuthenticatedIdentity>)
    ensures
        r is Some <==> (access_token is Some && expires_in is Some),
        r matches Some(id) ==> id@ == (IdentityView {
            subject: crate::config::opt_str_view(subject),
            access_token: access_token->0@,
            refresh_token: crate::config::opt_str_view(refresh_token),
            expires_in: expires_in->0,
        }),
{
    match (access_token, expires_in) {
        (Some(at), Some(exp)) => Some(
            AuthenticatedIdentity {
                subject,
                access_token: at,
                refresh_token,
                expires_in: exp,
            },
        ),
        _ => None,
    }
}

/// Records the outcome of the token exchange.  A usable reply promotes the
/// session to authenticated; a failed exchange changes nothing — the pending
/// pair is already gone, so the user must restart login from scratch.
pub fn complete_callback(
    store: &mut SessionStore,
    h: usize,
    exchange: Option<AuthenticatedIdentity>,
    now: u64,
) -> (r: Result<(), LoginError>)
    requires
        now + SESSION_TTL_SECONDS <= u64::MAX,
    ensures
        final(store)@.len() == old(store)@.len(),
        forall|i: int|
            0 <= i < old(store)@.len() && i != h as int ==> final(store)@[i] == old(store)@[i],
        exchange is None ==> r == Result::<(), LoginError>::Err(LoginError::TokenExchangeFailed)
            && final(store)@ == old(store)@,
        exchange matches Some(id) ==> ({
            let s = slot_view(old(store)@, h as int);
            if s is Some && session_live(s->0, now) {
                &&& r is Ok
                &&& slot_view(final(store)@, h as int) matches Some(after)
                &&& after.identity == Some(id@)
                &&& after.state_value == s->0.state_value
                &&& after.code_verifier == s->0.code_verifier
                &&& after.created_at == s->0.created_at
            } else {
                r == Result::<(), LoginError>::Err(LoginError::NoPendingLogin) && final(store)@
                    == old(store)@
            }
        }),
        store_wf(old(store)@) ==> store_wf(final(store)@),
{
    match exchange {
        None => Result::Err(LoginError::TokenExchangeFailed),
        Some(id) => {
            if store.set_identity(h, id, now) {
                Result::Ok(())
            } else {
                Result::Err(LoginError::NoPendingLogin)
            }
        },
    }
}

/// Names the upstream revocation to attempt before destroying the session:
/// one is due exactly when the session is live and authenticated and a
/// revocation endpoint is configured.  The refresh token is revoked when one
/// is held, else the access token.
pub fn prepare_logout(store: &SessionStore, h: usize, config: &ClientConfig, now: u64) -> (r:
    Option<RevocationRequest>)
    ensures
        r is Some <==> (crate::session::has_live_identity(store@, h as int, now)
            && config@.revocation_endpoint is Some),
        r matches Some(req) ==> ({
            let id = slot_view(store@, h as int)->0.identity->0;
            &&& req.endpoint@ == config@.revocation_endpoint->0
            &&& req.token@ == (if id.refresh_token is Some {
                id.refresh_token->0
            } else {
                id.access_token
            })
        }),
{
    match (store.identity(h, now), &config.revocation_endpoint) {
        (Some(id), Some(endpoint)) => {
            let token = match &id.refresh_token {
                Some(t) => t.clone(),
                None => id.access_token.clone(),
            };
            Some(RevocationRequest { endpoint: endpoint.clone(), token })
        },
        _ => None,
    }
}

/// Destroys the session, whatever became of the upstream revocation: this
/// function takes no revocation outcome at all, so a failed or skipped
/// revocation cannot keep the session alive.
pub fn finish_logout(store: &mut SessionStore, h: usize)
    ensures
        h < old(store)@.len() ==> final(store)@ == old(store)@.update(
            h as int,
            None::<SessionView>,
        ),
        h >= old(store)@.len() ==> final(store)@ == old(store)@,
        slot_view(final(store)@, h as int) is None,
        store_wf(old(store)@) ==> store_wf(final(store)@),
{
    store.destroy(h);
}

/// Law: a pending pair is written as a unit, so writing one always leaves the
/// session pair-consistent.
pub proof fn lemma_pending_write_pair_consistent(
    prev: Option<SessionView>,
    state: Seq<char>,
    verifier: Seq<char>,
    now: u64,
)
    ensures
        crate::session::pair_consistent(pending_session_view(prev, state, verifier, now)),
{
}

/// Law: a callback clears the pair as a unit, so it also leaves the session
/// pair-consistent; together with the write law, the state value and the
/// verifier are both present or both absent after every mutation of the flow.
pub proof fn lemma_callback_pair_consistent(s: Option<SessionView>, now: u64)
    requires
        s matches Some(v) ==> crate::session::pair_consistent(v),
    ensures
        session_after_callback(s, now) matches Some(v) ==> crate::session::pair_consistent(v),
{
}

/// Law: a callback whose echoed state differs from the stored state always
/// comes to `StateMismatch`, leaves the identity exactly as it was, and still
/// clears the pending pair.
pub proof fn lemma_state_mismatch_rejected(s: Option<SessionView>, user_state: Seq<char>, now: u64)
    requires
        pending_consumable(s, now),
        user_state != s->0.state_value->0,
    ensures
        callback_outcome(s, user_state, now) == Result::<Seq<char>, LoginError>::Err(
            LoginError::StateMismatch,
        ),
        session_after_callback(s, now)->0.identity == s->0.identity,
        session_after_callback(s, now)->0.state_value is None,
        session_after_callback(s, now)->0.code_verifier is None,
{
}

/// Law: once a callback has consumed a session's pending pair, any further
/// callback for that session — the same redirect replayed, or any other —
/// finds no pending login, whatever state it echoes and whenever it arrives.
pub proof fn lemma_callback_replay(
    s: Option<SessionView>,
    now1: u64,
    user_state2: Seq<char>,
    now2: u64,
)
    requires
        pending_consumable(s, now1),
    ensures
        callback_outcome(session_after_callback(s, now1), user_state2, now2) == Result::<
            Seq<char>,
            LoginError,
        >::Err(LoginError::NoPendingLogin),
{
}

} // verus!
