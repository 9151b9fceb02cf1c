//! What is kept on the server: the state of a login that was started, and the session of a user
//! that was let in. Each is stored as JSON behind a prefix that tells the two apart.

use crate::json;
use crate::text;
use vstd::prelude::*;
use vstd::string::*;

verus! {

/// What a stored session starts with.
pub const OIDC_SESSION_PREFIX: &'static str = "oidc:";

/// What the stored state of a login starts with.
pub const OIDC_STATE_SESSION_PREFIX: &'static str = "oidc-state:";

/// The only version of a session that is understood.
pub const SESSION_VERSION: u8 = 1;

/// The state of a login that was started.
#[derive(Clone, Debug, PartialEq, Eq)]
pub struct LoginState {
    pub verifier: String,
    pub nonce: String,
    pub created_at: i64,
}

/// The session of a user that was let in.
#[derive(Clone, Debug, PartialEq, Eq)]
pub struct OidcSession {
    pub version: u8,
    pub issuer: String,
    pub subject: String,
    pub email: String,
}

/// Why a stored value is no session.
#[derive(Clone, Copy, Debug, PartialEq, Eq, Structural)]
pub enum SessionError {
    NotOidc,
    Undecodable,
    UnsupportedVersion,
}

/// Under what the state of a login is stored.
pub open spec fn state_id(state: Seq<char>) -> Seq<char> {
    "oidc-state-"@ + state
}

/// The state of a login as JSON.
pub open spec fn login_state_json(login: LoginState) -> Seq<char> {
    "{\"verifier\":"@ + json::json_string(login.verifier@) + ",\"nonce\":"@ + json::json_string(
        login.nonce@,
    ) + ",\"created_at\":"@ + text::signed_decimal(login.created_at as int) + "}"@
}

/// The state of a login as it is stored.
pub open spec fn login_state_record(login: LoginState) -> Seq<char> {
    OIDC_STATE_SESSION_PREFIX@ + login_state_json(login)
}

/// A session as JSON.
pub open spec fn session_json(session: OidcSession) -> Seq<char> {
    "{\"version\":"@ + text::decimal(session.version as nat) + ",\"issuer\":"@ + json::json_string(
        session.issuer@,
    ) + ",\"subject\":"@ + json::json_string(session.subject@) + ",\"email\":"@
        + json::json_string(session.email@) + "}"@
}

/// A session as it is stored.
pub open spec fn session_record(session: OidcSession) -> Seq<char> {
    OIDC_SESSION_PREFIX@ + session_json(session)
}

/// What is wrong with a stored value as a session. `decoded` is what its JSON holds; `None` where
/// that is no session.
pub open spec fn session_fault(stored: Seq<char>, decoded: Option<OidcSession>) -> Option<
    SessionError,
> {
    if text::without_prefix(stored, OIDC_SESSION_PREFIX@) is None {
        Some(SessionError::NotOidc)
    } else {
        match decoded {
            None => Some(SessionError::Undecodable),
            Some(session) => if session.version != SESSION_VERSION {
                Some(SessionError::UnsupportedVersion)
            } else {
                None
            },
        }
    }
}

/// The state is still in its time: it was made neither in the future nor longer ago than its
/// lifetime.
pub open spec fn state_in_time(created_at: i64, now: i64, ttl: i64) -> bool {
    0 <= now - created_at <= ttl
}

/// Under what the state of a login is stored.
pub fn state_session_id(state: &str) -> (id: String)
    ensures
        id@ == state_id(state@),
{
    text::joined("oidc-state-", state)
}

/// The state of a login as it is stored.
pub fn login_state_value(login: &LoginState) -> (stored: String)
    ensures
        stored@ == login_state_record(*login),
{
    let mut content: String = "{\"verifier\":".to_owned();
    content.append(json::quoted(login.verifier.as_str()).as_str());
    content.append(",\"nonce\":");
    content.append(json::quoted(login.nonce.as_str()).as_str());
    content.append(",\"created_at\":");
    content.append(text::to_signed_decimal(login.created_at).as_str());
    content.append("}");
    text::joined(OIDC_STATE_SESSION_PREFIX, content.as_str())
}

/// The JSON of a stored state of a login; `None` where the value is stored for something else.
pub fn login_state_payload(stored: &str) -> (payload: Option<&str>)
    ensures
        text::str_view(payload) == text::without_prefix(stored@, OIDC_STATE_SESSION_PREFIX@),
{
    text::strip_prefix(stored, OIDC_STATE_SESSION_PREFIX)
}

/// Whether a state that was made at `created_at` is still in its time.
pub fn is_state_in_time(created_at: i64, now: i64, ttl: i64) -> (in_time: bool)
    ensures
        in_time == state_in_time(created_at, now, ttl),
{
    let age: i128 = now as i128 - created_at as i128;
    0 <= age && age <= ttl as i128
}

/// A session as it is stored.
pub fn session_value(session: &OidcSession) -> (stored: String)
    ensures
        stored@ == session_record(*session),
{
    let mut content: String = "{\"version\":".to_owned();
    content.append(text::to_decimal(session.version as u64).as_str());
    content.append(",\"issuer\":");
    content.append(json::quoted(session.issuer.as_str()).as_str());
    content.append(",\"subject\":");
    content.append(json::quoted(session.subject.as_str()).as_str());
    content.append(",\"email\":");
    content.append(json::quoted(session.email.as_str()).as_str());
    content.append("}");
    text::joined(OIDC_SESSION_PREFIX, content.as_str())
}

/// The JSON of a stored session; `None` where the value is stored for something else.
pub fn session_payload(stored: &str) -> (payload: Option<&str>)
    ensures
        text::str_view(payload) == text::without_prefix(stored@, OIDC_SESSION_PREFIX@),
{
    text::strip_prefix(stored, OIDC_SESSION_PREFIX)
}

/// The session that a stored value is. `decoded` is what [`session_payload`] of the value holds;
/// `None` where that is no session.
pub fn parse_session(stored: &str, decoded: Option<OidcSession>) -> (result: Result<
    OidcSession,
    SessionError,
>)
    ensures
        match session_fault(stored@, decoded) {
            Some(fault) => result == Err::<OidcSession, SessionError>(fault),
            None => decoded matches Some(session) && result == Ok::<OidcSession, SessionError>(
                session,
            ),
        },
{
    if session_payload(stored).is_none() {
        return Err(SessionError::NotOidc);
    }
    match decoded {
        None => Err(SessionError::Undecodable),
        Some(session) => {
            if session.version != SESSION_VERSION {
                Err(SessionError::UnsupportedVersion)
            } else {
                Ok(session)
            }
        },
    }
}

// ---------------------------------------------------------------------------------------------
// Laws
// ---------------------------------------------------------------------------------------------

proof fn lemma_prefix_comes_off(prefix: Seq<char>, rest: Seq<char>)
    ensures
        text::without_prefix(prefix + rest, prefix) == Some(rest),
{
    assert((prefix + rest).take(prefix.len() as int) =~= prefix);
    assert((prefix + rest).skip(prefix.len() as int) =~= rest);
}

/// A session that is stored is read back: behind its prefix the JSON stands as it was written, and
/// one of the current version that is decoded from it is the session.
pub proof fn stored_sessions_are_read_back(session: OidcSession)
    ensures
        text::without_prefix(session_record(session), OIDC_SESSION_PREFIX@) == Some(
            session_json(session),
        ),
        session.version == SESSION_VERSION ==> session_fault(
            session_record(session),
            Some(session),
        ) is None,
{
    lemma_prefix_comes_off(OIDC_SESSION_PREFIX@, session_json(session));
}

/// The state of a login that is stored is read back: behind its prefix the JSON stands as it was
/// written.
pub proof fn stored_states_are_read_back(login: LoginState)
    ensures
        text::without_prefix(login_state_record(login), OIDC_STATE_SESSION_PREFIX@) == Some(
            login_state_json(login),
        ),
{
    lemma_prefix_comes_off(OIDC_STATE_SESSION_PREFIX@, login_state_json(login));
}

/// The state of a login is never taken for a session, whatever is decoded from it.
pub proof fn a_state_is_no_session(login: LoginState, decoded: Option<OidcSession>)
    ensures
        session_fault(login_state_record(login), decoded) == Some(SessionError::NotOidc),
{
    reveal_strlit("oidc:");
    reveal_strlit("oidc-state:");
    let stored = login_state_record(login);
    assert(stored[4] == '-' && OIDC_SESSION_PREFIX@[4] == ':');
    if OIDC_SESSION_PREFIX@.is_prefix_of(stored) {
        assert(stored.take(5)[4] == stored[4]);
    }
}

/// A session is never taken for the state of a login.
pub proof fn a_session_is_no_state(session: OidcSession)
    ensures
        text::without_prefix(session_record(session), OIDC_STATE_SESSION_PREFIX@) is None,
{
    reveal_strlit("oidc:");
    reveal_strlit("oidc-state:");
    let stored = session_record(session);
    assert(stored[4] == ':' && OIDC_STATE_SESSION_PREFIX@[4] == '-');
    if OIDC_STATE_SESSION_PREFIX@.is_prefix_of(stored) {
        assert(stored.take(11)[4] == stored[4]);
    }
}

/// Whether a state is still in its time depends on its age alone: one that is no older than its
/// lifetime is, to the last second, and one from the future or older is not. Moving both times by
/// the same amount makes no difference.
pub proof fn a_state_is_judged_by_its_age(created_at: i64, now: i64, ttl: i64, age: int, by: i64)
    requires
        now - created_at == age,
    ensures
        state_in_time(created_at, now, ttl) <==> 0 <= age && age <= ttl,
        i64::MIN <= created_at + by <= i64::MAX && i64::MIN <= now + by <= i64::MAX
            ==> state_in_time((created_at + by) as i64, (now + by) as i64, ttl) == state_in_time(
            created_at,
            now,
            ttl,
        ),
{
}

/// A stored session is taken for the one that was decoded from it exactly where it has the prefix
/// of sessions and the version 1. Everything else is refused, with the first thing that is wrong.
pub proof fn sessions_of_the_first_version_are_taken(
    rest: Seq<char>,
    stored: Seq<char>,
    session: OidcSession,
    decoded: Option<OidcSession>,
)
    ensures
        session.version == 1 ==> session_fault("oidc:"@ + rest, Some(session)) is None,
        session.version != 1 ==> session_fault("oidc:"@ + rest, Some(session)) == Some(
            SessionError::UnsupportedVersion,
        ),
        session_fault("oidc:"@ + rest, None) == Some(SessionError::Undecodable),
        session_fault(stored, decoded) == Some(SessionError::NotOidc) <==> !"oidc:"@.is_prefix_of(
            stored,
        ),
{
    lemma_prefix_comes_off("oidc:"@, rest);
}

/// The states of two logins are stored under different names, each with the state at its end.
pub proof fn every_state_has_its_own_place(a: Seq<char>, b: Seq<char>)
    ensures
        state_id(a) == state_id(b) <==> a == b,
        text::without_prefix(state_id(a), "oidc-state-"@) == Some(a),
{
    lemma_prefix_comes_off("oidc-state-"@, a);
    lemma_prefix_comes_off("oidc-state-"@, b);
}

/// What is stored of a login and of a session, field by field in the order of JSON objects.
pub proof fn records_hold_every_field(login: LoginState, session: OidcSession)
    ensures
        login_state_record(login) == "oidc-state:{\"verifier\":"@ + json::json_string(
            login.verifier@,
        ) + ",\"nonce\":"@ + json::json_string(login.nonce@) + ",\"created_at\":"@
            + text::signed_decimal(login.created_at as int) + "}"@,
        session_record(session) == "oidc:{\"version\":"@ + text::decimal(session.version as nat)
            + ",\"issuer\":"@ + json::json_string(session.issuer@) + ",\"subject\":"@
            + json::json_string(session.subject@) + ",\"email\":"@ + json::json_string(
            session.email@,
        ) + "}"@,
{
    reveal_strlit("oidc-state:{\"verifier\":");
    reveal_strlit("oidc-state:");
    reveal_strlit("{\"verifier\":");
    assert("oidc-state:{\"verifier\":"@ =~= OIDC_STATE_SESSION_PREFIX@ + "{\"verifier\":"@);
    assert(login_state_record(login) =~= "oidc-state:{\"verifier\":"@ + json::json_string(
        login.verifier@,
    ) + ",\"nonce\":"@ + json::json_string(login.nonce@) + ",\"created_at\":"@
        + text::signed_decimal(login.created_at as int) + "}"@);
    reveal_strlit("oidc:{\"version\":");
    reveal_strlit("oidc:");
    reveal_strlit("{\"version\":");
    assert("oidc:{\"version\":"@ =~= OIDC_SESSION_PREFIX@ + "{\"version\":"@);
    assert(session_record(session) =~= "oidc:{\"version\":"@ + text::decimal(
        session.version as nat,
    ) + ",\"issuer\":"@ + json::json_string(session.issuer@) + ",\"subject\":"@
        + json::json_string(session.subject@) + ",\"email\":"@ + json::json_string(session.email@)
        + "}"@);
}

} // verus!
