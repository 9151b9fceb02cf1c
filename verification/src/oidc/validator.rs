//! The use of a session: the check that it is still there, and the admission of requests that come
//! with it.

use crate::automation::{AuthError, AuthErrorView, UserRole};
use crate::json::JsonView;
use crate::oidc::callback;
use crate::oidc::callback::{CallbackAction, CallbackStage, CallbackStep};
use crate::oidc::config::EffectiveConfig;
use crate::oidc::reply;
use crate::oidc::reply::{Reply, ReplyView};
use crate::oidc::session;
use crate::oidc::session::{LoginState, OidcSession};
use crate::oidc::token;
use crate::oidc::token::Identity;
use crate::text;
use crate::text::Separator;
use vstd::prelude::*;
use vstd::string::*;

verus! {

// ---------------------------------------------------------------------------------------------
// The session of a browser
// ---------------------------------------------------------------------------------------------

/// The session that an access token names.
pub open spec fn named_session(access_token: Option<Seq<char>>) -> Option<Seq<char>> {
    match access_token {
        Some(token) => text::without_prefix(token, "session "@),
        None => None,
    }
}

/// The session that the cookie of a browser names. `access_token` is the access token in the
/// cookie; `None` where there is no cookie or it holds no tokens.
pub fn session_id_from_cookie(access_token: Option<&str>) -> (id: Option<&str>)
    ensures
        text::str_view(id) == named_session(text::str_view(access_token)),
{
    match access_token {
        Some(token) => text::strip_prefix(token, "session "),
        None => None,
    }
}

/// What a stored value is as a session, where one is stored.
pub open spec fn stored_fault(stored: Option<Seq<char>>, decoded: Option<OidcSession>) -> bool {
    match stored {
        None => true,
        Some(value) => session::session_fault(value, decoded) is Some,
    }
}

/// The answer to a browser that asks whether its session is still there.
pub open spec fn refresh_reply(
    access_token: Option<Seq<char>>,
    stored: Option<Seq<char>>,
    decoded: Option<OidcSession>,
) -> ReplyView {
    if named_session(access_token) is None {
        reply::error_reply(401, "OIDC session is missing"@)
    } else if stored_fault(stored, decoded) {
        reply::error_reply(401, "OIDC session has expired"@)
    } else {
        ReplyView { status: 204, headers: Seq::empty(), body: Seq::empty() }
    }
}

/// Answers a browser that asks whether its session is still there. The session is not extended:
/// once it has expired, a new login is due.
///
/// `access_token` is the access token in the browser's cookie, `stored` is what is stored under
/// [`session_id_from_cookie`], and `decoded` is what [`session::session_payload`] of that holds.
pub fn refresh(
    access_token: Option<&str>,
    stored: Option<&str>,
    decoded: Option<OidcSession>,
) -> (answer: Reply)
    ensures
        answer@ == refresh_reply(text::str_view(access_token), text::str_view(stored), decoded),
{
    if session_id_from_cookie(access_token).is_none() {
        return reply::error_response(401, "OIDC session is missing");
    }
    match stored {
        Some(value) => match session::parse_session(value, decoded) {
            Ok(_) => {
                let answer: Reply = Reply {
                    status: 204,
                    headers: Vec::new(),
                    body: String::new(),
                };
                assert(answer@.headers =~= Seq::empty());
                answer
            },
            Err(_) => reply::error_response(401, "OIDC session has expired"),
        },
        None => reply::error_response(401, "OIDC session has expired"),
    }
}

// ---------------------------------------------------------------------------------------------
// The organization of a request
// ---------------------------------------------------------------------------------------------

/// The names along a path behind the start of the interface. A path that does not begin with that
/// is taken whole.
pub open spec fn path_columns(path: Seq<char>, base_uri: Seq<char>) -> Seq<Seq<char>> {
    let local = match text::without_prefix(path, base_uri) {
        Some(rest) => rest,
        None => path,
    };
    text::nonempty_pieces(
        match text::without_prefix(local, "/api/"@) {
            Some(rest) => rest,
            None => text::without_leading(path, '/'),
        },
        Separator::Slash,
    )
}

/// The first names of paths that belong to no organization.
pub open spec fn outside_organizations(name: Seq<char>) -> bool {
    name == "organizations"@ || name == "clusters"@ || name == "license"@ || name == "invites"@
}

/// The organization that a path is about: the first name along it, or the second where the first
/// is that of the second version of the interface.
pub open spec fn org_of_path(
    path: Seq<char>,
    base_uri: Seq<char>,
    v2_prefix: Seq<char>,
) -> Option<Seq<char>> {
    let columns = path_columns(path, base_uri);
    let at: int = if columns.len() > 0 && columns[0] == v2_prefix {
        1
    } else {
        0
    };
    if at < columns.len() && !outside_organizations(columns[at]) {
        Some(columns[at])
    } else {
        None
    }
}

/// The organization that a request is about. `v2_prefix` is the name along a path of the second
/// version of the interface.
pub fn requested_org(path: &str, base_uri: &str, v2_prefix: &str) -> (org: Option<String>)
    ensures
        text::text_view(org) == org_of_path(path@, base_uri@, v2_prefix@),
{
    let local: &str = match text::strip_prefix(path, base_uri) {
        Some(rest) => rest,
        None => path,
    };
    let inner: &str = match text::strip_prefix(local, "/api/") {
        Some(rest) => rest,
        None => text::strip_leading(path, '/'),
    };
    let columns: Vec<String> = text::split_nonempty(inner, Separator::Slash);
    let ghost views: Seq<Seq<char>> = path_columns(path@, base_uri@);
    assert(views =~= text::texts(columns@));
    let at: usize = if columns.len() > 0 && text::same_text(columns[0].as_str(), v2_prefix) {
        1
    } else {
        0
    };
    assert(columns@.len() > 0 ==> views[0] == columns@[0]@);
    if at >= columns.len() {
        return None;
    }
    assert(views[at as int] == columns@[at as int]@);
    let candidate: &String = &columns[at];
    if text::same_text(candidate.as_str(), "organizations") || text::same_text(
        candidate.as_str(),
        "clusters",
    ) || text::same_text(candidate.as_str(), "license") || text::same_text(
        candidate.as_str(),
        "invites",
    ) {
        None
    } else {
        Some(candidate.clone())
    }
}

// ---------------------------------------------------------------------------------------------
// The admission of a request
// ---------------------------------------------------------------------------------------------

/// Who a request was let in as.
#[derive(Debug)]
pub struct AuthValidationResult {
    pub user_email: String,
    pub user_role: Option<UserRole>,
    pub is_internal_user: bool,
}

/// A user that is known.
#[derive(Debug)]
pub struct KnownUser {
    pub email: String,
    pub role: UserRole,
}

/// What has been done to admit a request.
#[derive(Debug)]
pub enum ValidationStage {
    /// Nothing.
    Start,
    /// The stored session is read.
    ReadingSession { org: Option<String> },
    /// The session is decoded.
    DecodingSession { org: Option<String>, stored: String },
    /// The configuration is loaded.
    Configuring { org: Option<String>, session: OidcSession },
    /// The user is looked up.
    FindingUser,
    /// It was decided.
    Decided,
}

/// What came of an action.
#[derive(Debug)]
pub enum ValidationEvent {
    /// A request came in with that authorization, for that path.
    Request { auth: String, path: String, base_uri: String, v2_prefix: String },
    /// What is stored under the name of the session; `None` where nothing is.
    SessionRead(Option<String>),
    /// What the session holds; `None` where it is none.
    SessionDecoded(Option<OidcSession>),
    /// The configuration that is in force; `None` where there is none.
    Config(Option<EffectiveConfig>),
    /// The user; `None` where there is none.
    UserFound(Option<KnownUser>),
}

/// What is to be done next.
#[derive(Debug)]
pub enum ValidationAction {
    /// Read what is stored under the name.
    ReadSession { id: String },
    /// Decode a session from JSON.
    DecodeSession { payload: String },
    /// Load the configuration.
    LoadConfig,
    /// Look the user with the email address up: in the organization, or where there is none, in
    /// whichever of the user's organizations comes first.
    FindUser { email: String, org: Option<String> },
    /// Let the request in.
    Admit(AuthValidationResult),
    /// Do not let the request in.
    Reject(AuthError),
}

/// The session that an authorization names: a bearer token that is none but the name of a session.
pub open spec fn bearer_session_name(auth: Seq<char>) -> Option<Seq<char>> {
    match text::without_prefix(auth, "Bearer"@) {
        Some(token) => text::without_prefix(text::trim(token), "session "@),
        None => None,
    }
}

/// The session that an authorization names.
pub fn bearer_session(auth: &str) -> (id: Option<&str>)
    ensures
        text::str_view(id) == bearer_session_name(auth@),
{
    match text::strip_prefix(auth, "Bearer") {
        Some(token) => text::strip_prefix(text::trimmed(token), "session "),
        None => None,
    }
}

/// The request is not let in.
pub open spec fn rejects(next: ValidationStage, action: ValidationAction, message: Seq<char>) -> bool {
    next is Decided && (action matches ValidationAction::Reject(error) && error@
        == AuthErrorView::Unauthorized(message))
}

/// From a stage, an event leads to the next stage and action.
pub open spec fn validation_step(
    stage: ValidationStage,
    event: ValidationEvent,
    next: ValidationStage,
    action: ValidationAction,
) -> bool {
    match (stage, event) {
        (
            ValidationStage::Start,
            ValidationEvent::Request { auth, path, base_uri, v2_prefix },
        ) => match bearer_session_name(auth@) {
            None => rejects(next, action, "Unsupported bearer token"@),
            Some(name) => {
                &&& next matches ValidationStage::ReadingSession { org } && text::text_view(org)
                    == org_of_path(path@, base_uri@, v2_prefix@)
                &&& action matches ValidationAction::ReadSession { id } && id@ == name
            },
        },
        (ValidationStage::ReadingSession { .. }, ValidationEvent::SessionRead(None)) => rejects(
            next,
            action,
            "OIDC session is invalid"@,
        ),
        (
            ValidationStage::ReadingSession { org },
            ValidationEvent::SessionRead(Some(stored)),
        ) => match text::without_prefix(stored@, session::OIDC_SESSION_PREFIX@) {
            None => rejects(next, action, "OIDC session is invalid"@),
            Some(content) => {
                &&& next == (ValidationStage::DecodingSession { org, stored })
                &&& action matches ValidationAction::DecodeSession { payload } && payload@
                    == content
            },
        },
        (
            ValidationStage::DecodingSession { org, stored },
            ValidationEvent::SessionDecoded(decoded),
        ) => if session::session_fault(stored@, decoded) is Some {
            rejects(next, action, "OIDC session is invalid"@)
        } else {
            &&& next == (ValidationStage::Configuring { org, session: decoded.unwrap() })
            &&& action is LoadConfig
        },
        (ValidationStage::Configuring { .. }, ValidationEvent::Config(None)) => rejects(
            next,
            action,
            "OIDC is unavailable"@,
        ),
        (
            ValidationStage::Configuring { org, session },
            ValidationEvent::Config(Some(cfg)),
        ) => if session.issuer@ != cfg.issuer@ {
            rejects(next, action, "OIDC issuer changed"@)
        } else {
            &&& next is FindingUser
            &&& action matches ValidationAction::FindUser { email, org: asked } && email@
                == session.email@ && asked == org
        },
        (ValidationStage::FindingUser, ValidationEvent::UserFound(Some(user))) => {
            &&& next is Decided
            &&& action matches ValidationAction::Admit(result) && result.user_email == user.email
                && result.user_role == Some(user.role) && !result.is_internal_user
        },
        (ValidationStage::FindingUser, ValidationEvent::UserFound(None)) => rejects(
            next,
            action,
            "OIDC user is not admitted"@,
        ),
        _ => rejects(next, action, "OIDC session is invalid"@),
    }
}

fn reject(message: &str) -> (step: (ValidationStage, ValidationAction))
    ensures
        rejects(step.0, step.1, message@),
{
    (
        ValidationStage::Decided,
        ValidationAction::Reject(AuthError::Unauthorized(message.to_owned())),
    )
}

/// What is done next to admit a request that comes with a session, and the stage that it then is
/// in. Only sessions that were opened here are let in, never a token of the provider.
pub fn token_validator(stage: ValidationStage, event: ValidationEvent) -> (step: (
    ValidationStage,
    ValidationAction,
))
    ensures
        validation_step(stage, event, step.0, step.1),
{
    match (stage, event) {
        (
            ValidationStage::Start,
            ValidationEvent::Request { auth, path, base_uri, v2_prefix },
        ) => match bearer_session(auth.as_str()) {
            Some(id) => (
                ValidationStage::ReadingSession {
                    org: requested_org(path.as_str(), base_uri.as_str(), v2_prefix.as_str()),
                },
                ValidationAction::ReadSession { id: id.to_owned() },
            ),
            None => reject("Unsupported bearer token"),
        },
        (ValidationStage::ReadingSession { org }, ValidationEvent::SessionRead(stored)) => {
            let stored: String = match stored {
                Some(stored) => stored,
                None => {
                    return reject("OIDC session is invalid");
                },
            };
            let payload: String = match session::session_payload(stored.as_str()) {
                Some(payload) => payload.to_owned(),
                None => {
                    return reject("OIDC session is invalid");
                },
            };
            (
                ValidationStage::DecodingSession { org, stored },
                ValidationAction::DecodeSession { payload },
            )
        },
        (
            ValidationStage::DecodingSession { org, stored },
            ValidationEvent::SessionDecoded(decoded),
        ) => match session::parse_session(stored.as_str(), decoded) {
            Ok(session) => (
                ValidationStage::Configuring { org, session },
                ValidationAction::LoadConfig,
            ),
            Err(_) => reject("OIDC session is invalid"),
        },
        (ValidationStage::Configuring { org, session }, ValidationEvent::Config(cfg)) => {
            match cfg {
                Some(cfg) => {
                    if !text::same_text(session.issuer.as_str(), cfg.issuer.as_str()) {
                        return reject("OIDC issuer changed");
                    }
                    (
                        ValidationStage::FindingUser,
                        ValidationAction::FindUser { email: session.email, org },
                    )
                },
                None => reject("OIDC is unavailable"),
            }
        },
        (ValidationStage::FindingUser, ValidationEvent::UserFound(user)) => match user {
            Some(user) => (
                ValidationStage::Decided,
                ValidationAction::Admit(
                    AuthValidationResult {
                        user_email: user.email,
                        user_role: Some(user.role),
                        is_internal_user: false,
                    },
                ),
            ),
            None => reject("OIDC user is not admitted"),
        },
        _ => reject("OIDC session is invalid"),
    }
}

// ---------------------------------------------------------------------------------------------
// Laws
// ---------------------------------------------------------------------------------------------

/// A session that was opened for an identity is a valid one when it is read: the check of it
/// succeeds, a request that comes with it passes, and the user is looked up by the identity's
/// email address, as long as the issuer is the one that it was opened under.
pub proof fn an_opened_session_is_valid(
    opened: OidcSession,
    identity: Identity,
    claims: JsonView,
    cfg: EffectiveConfig,
    access_token: Option<Seq<char>>,
    org: Option<String>,
    next: ValidationStage,
    action: ValidationAction,
)
    requires
        callback::is_session_of(opened, identity),
        token::identity_of(identity, cfg, claims),
        named_session(access_token) is Some,
        validation_step(
            (ValidationStage::Configuring { org, session: opened }),
            ValidationEvent::Config(Some(cfg)),
            next,
            action,
        ),
    ensures
        session::session_record(opened) == callback::identity_record(identity),
        session::session_fault(callback::identity_record(identity), Some(opened)) is None,
        refresh_reply(
            access_token,
            Some(callback::identity_record(identity)),
            Some(opened),
        ).status == 204,
        next is FindingUser,
        action matches ValidationAction::FindUser { email, .. } && email@ == identity.email@,
{
    session::stored_sessions_are_read_back(opened);
}

/// The access token that a login hands out names its session: a browser that comes back with it is
/// asked for that session, and so is a request that bears it, where the name of the session does not
/// end in white space.
pub proof fn an_access_token_names_its_session(id: Seq<char>)
    ensures
        named_session(Some("session "@ + id)) == Some(id),
        id.len() > 0 && !text::white_space(id.last()) ==> bearer_session_name(
            "Bearer "@ + ("session "@ + id),
        ) == Some(id),
{
    let token = "session "@ + id;
    assert(token.take("session "@.len() as int) =~= "session "@);
    assert(token.skip("session "@.len() as int) =~= id);
    if id.len() > 0 && !text::white_space(id.last()) {
        reveal_strlit("Bearer ");
        reveal_strlit("Bearer");
        reveal_strlit("session ");
        let auth = "Bearer "@ + token;
        let rest = auth.skip(6);
        assert(auth.take(6) =~= "Bearer"@);
        assert(rest[0] == ' ');
        assert(rest.drop_first() =~= token);
        reveal_with_fuel(text::trim_start, 2);
        assert(text::trim_start(rest) == token);
        assert(token.last() == id.last());
    }
}

/// The tokens that a login hands out name the session that it stored.
pub proof fn the_tokens_of_a_login_name_its_session(run: Seq<CallbackStep>, k: int)
    requires
        callback::callback_run(run),
        0 <= k < run.len(),
        run[k].action is Encode,
    ensures
        k > 0,
        run[k - 1].action matches CallbackAction::StoreSession { id, .. } && (
        run[k].action matches CallbackAction::Encode { tokens, .. } && tokens@
            == reply::auth_tokens_json(id@) && named_session(Some("session "@ + id@)) == Some(
            id@,
        )),
{
    reveal(callback::taken);
    assert(callback::taken(run[k]));
    assert(run[k].stage is StoringSession);
    assert(callback::taken(run[k - 1]));
    assert(run[k].stage == run[k - 1].next);
    match run[k].stage {
        CallbackStage::StoringSession { session_id, .. } => {
            an_access_token_names_its_session(session_id@);
        },
        _ => {},
    }
}

/// What is stored of a login that is under way opens nothing: a browser that names it as its
/// session is told that its session has expired, and a request that names it is not let in.
pub proof fn a_login_under_way_is_no_session(
    started: LoginState,
    stored: String,
    org: Option<String>,
    decoded: Option<OidcSession>,
    access_token: Option<Seq<char>>,
    next: ValidationStage,
    action: ValidationAction,
)
    requires
        stored@ == session::login_state_record(started),
        named_session(access_token) is Some,
        validation_step(
            (ValidationStage::ReadingSession { org }),
            ValidationEvent::SessionRead(Some(stored)),
            next,
            action,
        ),
    ensures
        refresh_reply(access_token, Some(stored@), decoded) == reply::error_reply(
            401,
            "OIDC session has expired"@,
        ),
        rejects(next, action, "OIDC session is invalid"@),
{
    session::a_state_is_no_session(started, decoded);
}

/// A token of the provider is never let in: nothing is looked up for an authorization that does
/// not name a session.
pub proof fn only_sessions_are_looked_up(
    auth: String,
    path: String,
    base_uri: String,
    v2_prefix: String,
    next: ValidationStage,
    action: ValidationAction,
)
    requires
        validation_step(
            ValidationStage::Start,
            (ValidationEvent::Request { auth, path, base_uri, v2_prefix }),
            next,
            action,
        ),
    ensures
        match action {
            ValidationAction::ReadSession { id } => bearer_session_name(auth@) == Some(id@),
            ValidationAction::Reject(error) => error@ == AuthErrorView::Unauthorized(
                "Unsupported bearer token"@,
            ) && bearer_session_name(auth@) is None,
            _ => false,
        },
{
}

/// A request is let in only as the user that was found, and never as one that is internal.
pub proof fn requests_are_let_in_as_the_user_that_was_found(
    stage: ValidationStage,
    event: ValidationEvent,
    next: ValidationStage,
    action: ValidationAction,
)
    requires
        validation_step(stage, event, next, action),
        action is Admit,
    ensures
        stage is FindingUser,
        event matches ValidationEvent::UserFound(Some(user)) && (
        action matches ValidationAction::Admit(result) && result.user_email == user.email
            && result.user_role == Some(user.role) && !result.is_internal_user),
{
}

/// An authorization names a session by `Bearer`, white space, the word `session`, a space and the
/// name, whatever the white space is and whatever follows the name of it; and one that names a
/// session is of that form.
pub proof fn a_bearer_names_its_session(
    before: Seq<char>,
    id: Seq<char>,
    after: Seq<char>,
    auth: Seq<char>,
)
    requires
        text::all_white(before),
        text::all_white(after),
        id.len() > 0,
        !text::white_space(id[id.len() - 1]),
    ensures
        bearer_session_name("Bearer"@ + before + "session "@ + id + after) == Some(id),
        bearer_session_name(auth) matches Some(name) ==> exists|rest: Seq<char>|
            auth == #[trigger] ("Bearer"@ + rest) && text::trim(rest) == "session "@ + name,
{
    reveal_strlit("session ");
    let inner = "session "@ + id;
    let whole = "Bearer"@ + before + "session "@ + id + after;
    let rest = before + inner + after;
    assert(whole =~= "Bearer"@ + rest);
    text::a_prefix_comes_off("Bearer"@, rest, whole);
    assert(inner[0] == 's');
    assert(inner[inner.len() - 1] == id[id.len() - 1]);
    text::trimming_takes_off_the_white_space_around(before, inner, after);
    text::a_prefix_comes_off("session "@, id, inner);
    if let Some(name) = bearer_session_name(auth) {
        let found = text::without_prefix(auth, "Bearer"@).unwrap();
        text::a_prefix_comes_off("Bearer"@, found, auth);
        text::a_prefix_comes_off("session "@, name, text::trim(found));
        assert(auth == "Bearer"@ + found);
    }
}

/// A browser is told that its session is still there exactly where its access token names one and
/// what is stored under that name has the prefix of sessions and is one of the version 1. Else it
/// is told that its session is missing or has expired.
pub proof fn a_session_is_there_while_it_is_stored(
    access_token: Option<Seq<char>>,
    id: Seq<char>,
    stored: Option<Seq<char>>,
    rest: Seq<char>,
    decoded: Option<OidcSession>,
    found: OidcSession,
)
    ensures
        found.version == 1 ==> refresh_reply(
            Some("session "@ + id),
            Some("oidc:"@ + rest),
            Some(found),
        ) == (ReplyView { status: 204, headers: Seq::empty(), body: Seq::empty() }),
        refresh_reply(access_token, stored, decoded).status == 204 ==> (
        access_token matches Some(token) && "session "@.is_prefix_of(token)) && (
        stored matches Some(value) && "oidc:"@.is_prefix_of(value)) && (
        decoded matches Some(session) && session.version == 1),
        !(access_token matches Some(token) && "session "@.is_prefix_of(token)) ==> refresh_reply(
            access_token,
            stored,
            decoded,
        ) == reply::error_reply(401, "OIDC session is missing"@),
        refresh_reply(Some("session "@ + id), None, decoded) == reply::error_reply(
            401,
            "OIDC session has expired"@,
        ),
        found.version != 1 ==> refresh_reply(
            Some("session "@ + id),
            Some("oidc:"@ + rest),
            Some(found),
        ) == reply::error_reply(401, "OIDC session has expired"@),
        refresh_reply(Some("session "@ + id), stored, None) == reply::error_reply(
            401,
            "OIDC session has expired"@,
        ),
{
    text::a_prefix_comes_off("session "@, id, "session "@ + id);
    text::a_prefix_comes_off("oidc:"@, rest, "oidc:"@ + rest);
}

/// A name along a path.
pub open spec fn path_name(name: Seq<char>) -> bool {
    name.len() > 0 && forall|i: int| 0 <= i < name.len() ==> #[trigger] name[i] != '/'
}

proof fn lemma_first_name(name: Seq<char>, rest: Seq<char>)
    requires
        path_name(name),
        rest.len() > 0 ==> rest[0] == '/',
    ensures
        text::nonempty_pieces(name + rest, Separator::Slash) == seq![name] + text::nonempty_pieces(
            rest,
            Separator::Slash,
        ),
{
    let by = Separator::Slash;
    let keep = |piece: Seq<char>| piece.len() > 0;
    text::a_text_without_separators_is_one_piece(name, by);
    lemma_filter_one(name);
    if rest.len() > 0 {
        let behind = rest.drop_first();
        text::pieces_join(name, '/', behind, by);
        assert(name + seq!['/'] + behind =~= name + rest);
        Seq::filter_distributes_over_add(text::pieces(name, by), text::pieces(behind, by), keep);
        let none = Seq::<char>::empty();
        text::pieces_join(none, '/', behind, by);
        assert(none + seq!['/'] + behind =~= rest);
        text::a_text_without_separators_is_one_piece(none, by);
        lemma_filter_one(none);
        Seq::filter_distributes_over_add(text::pieces(none, by), text::pieces(behind, by), keep);
        assert(text::nonempty_pieces(rest, by) =~= text::nonempty_pieces(behind, by));
    } else {
        assert(name + rest =~= name);
        let none = Seq::<char>::empty();
        assert(rest =~= none);
        text::a_text_without_separators_is_one_piece(none, by);
        lemma_filter_one(none);
        assert(seq![name] + text::nonempty_pieces(rest, by) =~= seq![name]);
    }
}

proof fn lemma_filter_one(name: Seq<char>)
    ensures
        seq![name].filter(|piece: Seq<char>| piece.len() > 0) == if name.len() > 0 {
            seq![name]
        } else {
            Seq::empty()
        },
{
    let keep = |piece: Seq<char>| piece.len() > 0;
    reveal(Seq::filter);
    let list = seq![name];
    assert(list.drop_last() =~= Seq::empty());
    assert(list.drop_last().filter(keep) =~= Seq::empty());
    assert(Seq::<Seq<char>>::empty().push(name) =~= seq![name]);
}

/// The organization of a request is the first name along its path behind the start of the interface,
/// or the second where the first is that of the second version, whatever follows it. The four names
/// that stand outside organizations are none.
#[verifier::rlimit(40)]
pub proof fn the_organization_is_named_first(
    base_uri: Seq<char>,
    v2_prefix: Seq<char>,
    org: Seq<char>,
    rest: Seq<char>,
)
    requires
        path_name(org),
        path_name(v2_prefix),
        rest.len() > 0 ==> rest[0] == '/',
    ensures
        org != v2_prefix && org != "organizations"@ && org != "clusters"@ && org != "license"@ && org
            != "invites"@ ==> org_of_path(base_uri + "/api/"@ + org + rest, base_uri, v2_prefix)
            == Some(org),
        org == "organizations"@ || org == "clusters"@ || org == "license"@ || org == "invites"@
            ==> org != v2_prefix ==> org_of_path(
            base_uri + "/api/"@ + org + rest,
            base_uri,
            v2_prefix,
        ) is None,
        org != "organizations"@ && org != "clusters"@ && org != "license"@ && org != "invites"@
            ==> org_of_path(
            base_uri + "/api/"@ + v2_prefix + "/"@ + org + rest,
            base_uri,
            v2_prefix,
        ) == Some(org),
        org == "organizations"@ || org == "clusters"@ || org == "license"@ || org == "invites"@
            ==> org_of_path(
            base_uri + "/api/"@ + v2_prefix + "/"@ + org + rest,
            base_uri,
            v2_prefix,
        ) is None,
        org_of_path(base_uri + "/api/"@ + v2_prefix, base_uri, v2_prefix) is None,
        org_of_path(base_uri + "/api/"@, base_uri, v2_prefix) is None,
{
    reveal_strlit("/");
    let by = Separator::Slash;
    let path = base_uri + "/api/"@ + org + rest;
    lemma_behind_api(base_uri, org + rest);
    assert(base_uri + "/api/"@ + (org + rest) =~= path);
    lemma_first_name(org, rest);
    assert(path_columns(path, base_uri)[0] == org);
    let second = base_uri + "/api/"@ + v2_prefix + "/"@ + org + rest;
    let behind = "/"@ + org + rest;
    lemma_behind_api(base_uri, v2_prefix + behind);
    assert(base_uri + "/api/"@ + (v2_prefix + behind) =~= second);
    lemma_first_name(v2_prefix, behind);
    let none = Seq::<char>::empty();
    text::pieces_join(none, '/', org + rest, by);
    assert(none + seq!['/'] + (org + rest) =~= behind);
    text::a_text_without_separators_is_one_piece(none, by);
    lemma_filter_one(none);
    Seq::filter_distributes_over_add(
        text::pieces(none, by),
        text::pieces(org + rest, by),
        |piece: Seq<char>| piece.len() > 0,
    );
    assert(text::nonempty_pieces(behind, by) =~= text::nonempty_pieces(org + rest, by));
    assert(path_columns(second, base_uri)[0] == v2_prefix);
    assert(path_columns(second, base_uri)[1] == org);
    lemma_behind_api(base_uri, v2_prefix + none);
    assert(base_uri + "/api/"@ + (v2_prefix + none) =~= base_uri + "/api/"@ + v2_prefix);
    lemma_first_name(v2_prefix, none);
    assert(text::nonempty_pieces(none, by) =~= Seq::empty());
    lemma_behind_api(base_uri, none);
    assert(base_uri + "/api/"@ + none =~= base_uri + "/api/"@);
}

proof fn lemma_behind_api(base_uri: Seq<char>, inner: Seq<char>)
    ensures
        path_columns(base_uri + "/api/"@ + inner, base_uri) == text::nonempty_pieces(
            inner,
            Separator::Slash,
        ),
{
    let path = base_uri + "/api/"@ + inner;
    let local = "/api/"@ + inner;
    assert(base_uri + local =~= path);
    text::a_prefix_comes_off(base_uri, local, path);
    text::a_prefix_comes_off("/api/"@, inner, local);
}

/// A path that is not behind the start of the interface is taken whole: its first name is the
/// organization, however many slashes stand before it.
pub proof fn other_paths_are_taken_whole(
    base_uri: Seq<char>,
    v2_prefix: Seq<char>,
    slashes: nat,
    org: Seq<char>,
    rest: Seq<char>,
    path: Seq<char>,
)
    requires
        path == Seq::new(slashes, |i: int| '/') + (org + rest),
        path_name(org),
        rest.len() > 0 ==> rest[0] == '/',
        !"/api/"@.is_prefix_of(path),
        !(base_uri + "/api/"@).is_prefix_of(path),
        org != v2_prefix,
        org != "organizations"@ && org != "clusters"@ && org != "license"@ && org != "invites"@,
    ensures
        org_of_path(path, base_uri, v2_prefix) == Some(org),
{
    let inner = org + rest;
    assert(inner[0] == org[0]);
    text::a_leading_run_comes_off(inner, '/', slashes);
    if let Some(local) = text::without_prefix(path, base_uri) {
        text::a_prefix_comes_off(base_uri, local, path);
        if "/api/"@.is_prefix_of(local) {
            assert(local.take("/api/"@.len() as int) == "/api/"@);
            let start = base_uri + "/api/"@;
            assert(path.take(start.len() as int) =~= start);
        }
    }
    lemma_first_name(org, rest);
    assert(path_columns(path, base_uri)[0] == org);
}

/// A request that comes with a session is let in: where the session is stored and of the version 1,
/// its issuer is the configured one, and its user is found in the organization of the request, the
/// request is let in as that user, with that role.
pub proof fn a_request_with_a_session_is_let_in(
    auth: String,
    path: String,
    base_uri: String,
    v2_prefix: String,
    id: Seq<char>,
    stored: String,
    content: Seq<char>,
    found: OidcSession,
    cfg: EffectiveConfig,
    user: KnownUser,
    stages: Seq<ValidationStage>,
    actions: Seq<ValidationAction>,
)
    requires
        stages.len() == 6,
        actions.len() == 5,
        stages[0] == ValidationStage::Start,
        validation_step(
            stages[0],
            ValidationEvent::Request { auth, path, base_uri, v2_prefix },
            stages[1],
            actions[0],
        ),
        validation_step(
            stages[1],
            ValidationEvent::SessionRead(Some(stored)),
            stages[2],
            actions[1],
        ),
        validation_step(
            stages[2],
            ValidationEvent::SessionDecoded(Some(found)),
            stages[3],
            actions[2],
        ),
        validation_step(stages[3], ValidationEvent::Config(Some(cfg)), stages[4], actions[3]),
        validation_step(stages[4], ValidationEvent::UserFound(Some(user)), stages[5], actions[4]),
        auth@ == "Bearer session "@ + id,
        id.len() > 0,
        !text::white_space(id[id.len() - 1]),
        stored@ == "oidc:"@ + content,
        found.version == 1,
        found.issuer@ == cfg.issuer@,
    ensures
        actions[0] matches ValidationAction::ReadSession { id: asked } && asked@ == id,
        actions[1] matches ValidationAction::DecodeSession { payload } && payload@ == content,
        actions[2] is LoadConfig,
        actions[3] matches ValidationAction::FindUser { email, org } && email@ == found.email@
            && text::text_view(org) == org_of_path(path@, base_uri@, v2_prefix@),
        actions[4] matches ValidationAction::Admit(result) && result.user_email == user.email
            && result.user_role == Some(user.role) && !result.is_internal_user,
        stages[5] is Decided,
{
    reveal_strlit("Bearer session ");
    reveal_strlit("Bearer");
    reveal_strlit("session ");
    let none = Seq::<char>::empty();
    let space = seq![' '];
    a_bearer_names_its_session(space, id, none, auth@);
    assert("Bearer"@ + space + "session "@ + id + none =~= auth@);
    text::a_prefix_comes_off("oidc:"@, content, stored@);
}

/// A request that is not let in is told why: without a stored session, or with one that is none,
/// that the session is invalid; without a configuration that the login is unavailable; with a
/// session of another issuer that the issuer changed; and without a user that the user is not
/// admitted.
pub proof fn a_request_that_is_not_let_in_is_told_why(
    stage: ValidationStage,
    event: ValidationEvent,
    next: ValidationStage,
    action: ValidationAction,
)
    requires
        validation_step(stage, event, next, action),
    ensures
        stage is ReadingSession && event == ValidationEvent::SessionRead(None) ==> next is Decided && (
        action matches ValidationAction::Reject(error) && error@ == AuthErrorView::Unauthorized(
            "OIDC session is invalid"@,
        )),
        stage is DecodingSession && event == ValidationEvent::SessionDecoded(None)
            ==> next is Decided && (action matches ValidationAction::Reject(error) && error@
            == AuthErrorView::Unauthorized("OIDC session is invalid"@)),
        stage is DecodingSession ==> (event matches ValidationEvent::SessionDecoded(Some(found))
            ==> found.version != 1 ==> next is Decided && (
        action matches ValidationAction::Reject(error) && error@ == AuthErrorView::Unauthorized(
            "OIDC session is invalid"@,
        ))),
        stage is Configuring && event == ValidationEvent::Config(None) ==> next is Decided && (
        action matches ValidationAction::Reject(error) && error@ == AuthErrorView::Unauthorized(
            "OIDC is unavailable"@,
        )),
        stage matches ValidationStage::Configuring { session, .. } ==> (
        event matches ValidationEvent::Config(Some(cfg)) ==> session.issuer@ != cfg.issuer@
            ==> next is Decided && (action matches ValidationAction::Reject(error) && error@
            == AuthErrorView::Unauthorized("OIDC issuer changed"@))),
        stage is FindingUser && event == ValidationEvent::UserFound(None) ==> next is Decided && (
        action matches ValidationAction::Reject(error) && error@ == AuthErrorView::Unauthorized(
            "OIDC user is not admitted"@,
        )),
{
}

/// What does not belong to the stage that a request is in is not let in.
pub proof fn what_comes_out_of_place_is_not_let_in(
    stage: ValidationStage,
    event: ValidationEvent,
    next: ValidationStage,
    action: ValidationAction,
)
    requires
        validation_step(stage, event, next, action),
        !(stage is Start && event is Request),
        !(stage is ReadingSession && event is SessionRead),
        !(stage is DecodingSession && event is SessionDecoded),
        !(stage is Configuring && event is Config),
        !(stage is FindingUser && event is UserFound),
    ensures
        next is Decided,
        action matches ValidationAction::Reject(error) && error@ == AuthErrorView::Unauthorized(
            "OIDC session is invalid"@,
        ),
{
}

} // verus!
