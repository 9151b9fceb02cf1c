//! The completion of a login: the code is exchanged, the user is admitted, and an opaque session
//! is opened that the server keeps.
//!
//! [`callback`] decides what is done next. Whoever runs it does that, and hands back what came of
//! it.

use crate::json;
use crate::json::{Json, JsonView};
use crate::oidc::binding;
use crate::oidc::binding::SubjectBinding;
use crate::oidc::config;
use crate::oidc::config::{EffectiveConfig, ProviderMetadata};
use crate::oidc::provision;
use crate::oidc::provision::{Admission, ExistingUser, NewMember, NewUser, RoleChange};
use crate::oidc::reply;
use crate::oidc::reply::{CookieSettings, Reply, LAST_SECOND};
use crate::oidc::session;
use crate::oidc::session::{LoginState, OidcSession, SESSION_VERSION};
use crate::oidc::token;
use crate::oidc::token::{Identity, TokenError, TokenRequest};
use crate::text;
use vstd::prelude::*;
use vstd::string::*;

verus! {

/// The header, in its encoded form, of the unsigned token that the web interface is handed.
pub const FRONTEND_JWT_HEADER: &'static str = "eyJhbGciOiJub25lIiwidHlwIjoiSldUIn0";

/// With what the provider sends the browser back.
#[derive(Clone, Debug)]
pub struct CallbackQuery {
    pub code: Option<String>,
    pub state: Option<String>,
    pub error: Option<String>,
    pub _error_description: Option<String>,
}

/// What has been done to complete a login.
#[derive(Debug)]
pub enum CallbackStage {
    /// Nothing.
    Start,
    /// The configuration is loaded.
    Configuring { code: String, state: String },
    /// The stored state of the login is read.
    ReadingState { cfg: EffectiveConfig, code: String, state_id: String },
    /// The stored state of the login is deleted.
    ConsumingState { cfg: EffectiveConfig, code: String, stored: String },
    /// The state of the login is decoded.
    DecodingState { cfg: EffectiveConfig, code: String },
    /// The provider is asked what it says of itself.
    Discovering { cfg: EffectiveConfig, code: String, started: LoginState },
    /// The code is exchanged.
    Exchanging { cfg: EffectiveConfig, nonce: String, jwks_uri: String },
    /// The provider's keys are fetched.
    FetchingKeys { cfg: EffectiveConfig, nonce: String, id_token: String },
    /// The email address is checked.
    CheckingEmail { cfg: EffectiveConfig, nonce: String, claims: Json },
    /// The binding of the email address is read.
    ReadingEmailBinding { cfg: EffectiveConfig, identity: Identity },
    /// The binding of the subject is read.
    ReadingSubjectBinding { cfg: EffectiveConfig, identity: Identity },
    /// The binding of the email address is written.
    WritingEmailBinding { cfg: EffectiveConfig, identity: Identity },
    /// The binding of the subject is written.
    WritingSubjectBinding { cfg: EffectiveConfig, identity: Identity },
    /// The default organization is created where it is missing.
    EnsuringOrg { cfg: EffectiveConfig, identity: Identity },
    /// The user with the email address is looked up.
    FindingUser { cfg: EffectiveConfig, identity: Identity },
    /// The user gets the role, is added to the organization, or is created.
    AdmittingUser { cfg: EffectiveConfig, identity: Identity, new_user: bool },
    /// The name of the session is drawn.
    DrawingSession { cfg: EffectiveConfig, identity: Identity, new_user: bool },
    /// The session is stored.
    StoringSession {
        cfg: EffectiveConfig,
        identity: Identity,
        new_user: bool,
        session_id: String,
    },
    /// The tokens are encoded.
    Encoding { cfg: EffectiveConfig, new_user: bool },
    /// The browser was answered.
    Answered,
}

/// What came of an action.
#[derive(Debug)]
pub enum CallbackEvent {
    /// The browser came back with that query and that cookie `oidc_state`.
    Request { query: CallbackQuery, cookie: Option<String> },
    /// The configuration that is in force; `None` where there is none.
    Config(Option<EffectiveConfig>),
    /// What is stored of the login; `None` where nothing is.
    StateRead(Option<String>),
    /// Whether the stored state was deleted.
    StateConsumed(bool),
    /// What the state holds, `None` where it is none, and the time in seconds since the start of
    /// 1970.
    StateDecoded { started: Option<LoginState>, now: i64 },
    /// What the provider says of itself; `None` where it did not answer.
    Provider(Option<ProviderMetadata>),
    /// The ID token that the code was exchanged for; `None` where it was not.
    IdToken(Option<String>),
    /// The provider's JSON Web Key Set; `None` where it could not be fetched.
    Keys(Option<Vec<u8>>),
    /// Whether the email address is a valid one.
    EmailChecked(bool),
    /// What is stored under the key of a binding; `None` outside where that could not be read.
    BindingRead(Option<Option<SubjectBinding>>),
    /// Whether the binding was written.
    BindingWritten(bool),
    /// Whether the organization is there.
    OrgEnsured(bool),
    /// The user with the email address, where there is one, and two random texts of
    /// [`provision::MEMBER_TOKEN_LENGTH`] characters.
    UserFound { existing: Option<ExistingUser>, token: String, rum_token: String },
    /// Whether the user got the role, was added, or was created.
    UserAdmitted(bool),
    /// A new name for a session, and the time in seconds since the start of 1970.
    SessionDrawn { id: String, now: i64 },
    /// Whether the session was stored.
    SessionStored(bool),
    /// The encoded forms of the tokens and of the payload, the time in seconds since the start of
    /// 1970, and how cookies are configured.
    Encoded { tokens: String, payload: String, now: i64, cookies: CookieSettings },
}

/// What is to be done next.
#[derive(Debug)]
pub enum CallbackAction {
    /// Load the configuration.
    LoadConfig,
    /// Read what is stored under the name.
    ReadState { id: String },
    /// Delete what is stored under the name.
    ConsumeState { id: String },
    /// Decode the state of a login from JSON, and look at the clock.
    DecodeState { payload: String },
    /// Ask the provider, at that URL, what it says of itself.
    Discover { url: String },
    /// Exchange the code for an ID token.
    Exchange(TokenRequest),
    /// Fetch the provider's JSON Web Key Set.
    FetchKeys { url: String },
    /// Check that the email address is a valid one.
    CheckEmail { email: String },
    /// Read what is stored under the key of a binding.
    ReadBinding { key: String },
    /// Store the value under the key of a binding.
    WriteBinding { key: String, value: String },
    /// Create the organization where it is missing.
    EnsureOrg { org: String },
    /// Look the user with the email address up, and draw two random texts.
    FindUser { email: String },
    /// Give the member of the organization the role.
    ChangeRole(RoleChange),
    /// Add the user to the organization.
    AddMember(NewMember),
    /// Create the user.
    CreateUser(NewUser),
    /// Draw a name for the session, and look at the clock.
    DrawSession,
    /// Store the session under the name until the time.
    StoreSession { id: String, value: String, expires_at: i64 },
    /// Encode the tokens of the session, and the payload of the token for the web interface, and
    /// look at the clock.
    Encode { tokens: String, payload: String },
    /// Answer the browser.
    Answer(Reply),
}

impl CallbackStage {
    /// The configuration is one that can be in force.
    pub open spec fn well_formed(self) -> bool {
        match self {
            CallbackStage::ReadingState { cfg, .. } => cfg.well_formed(),
            CallbackStage::ConsumingState { cfg, .. } => cfg.well_formed(),
            CallbackStage::DecodingState { cfg, .. } => cfg.well_formed(),
            CallbackStage::Discovering { cfg, .. } => cfg.well_formed(),
            CallbackStage::Exchanging { cfg, .. } => cfg.well_formed(),
            CallbackStage::FetchingKeys { cfg, .. } => cfg.well_formed(),
            CallbackStage::CheckingEmail { cfg, .. } => cfg.well_formed(),
            CallbackStage::ReadingEmailBinding { cfg, .. } => cfg.well_formed(),
            CallbackStage::ReadingSubjectBinding { cfg, .. } => cfg.well_formed(),
            CallbackStage::WritingEmailBinding { cfg, .. } => cfg.well_formed(),
            CallbackStage::WritingSubjectBinding { cfg, .. } => cfg.well_formed(),
            CallbackStage::EnsuringOrg { cfg, .. } => cfg.well_formed(),
            CallbackStage::FindingUser { cfg, .. } => cfg.well_formed(),
            CallbackStage::AdmittingUser { cfg, .. } => cfg.well_formed(),
            CallbackStage::DrawingSession { cfg, .. } => cfg.well_formed(),
            CallbackStage::StoringSession { cfg, .. } => cfg.well_formed(),
            CallbackStage::Encoding { cfg, .. } => cfg.well_formed(),
            _ => true,
        }
    }
}

impl CallbackEvent {
    /// The configuration is one that can be in force, and the time lies between 1970 and the last
    /// day of the year 9999.
    pub open spec fn well_formed(self) -> bool {
        match self {
            CallbackEvent::Config(Some(cfg)) => cfg.well_formed(),
            CallbackEvent::SessionDrawn { now, .. } => 0 <= now <= LAST_SECOND - 86_400,
            CallbackEvent::Encoded { now, .. } => 0 <= now <= LAST_SECOND - 86_400,
            _ => true,
        }
    }
}

// ---------------------------------------------------------------------------------------------
// The request
// ---------------------------------------------------------------------------------------------

/// Why the browser's request is refused.
#[derive(Clone, Copy, Debug, PartialEq, Eq, Structural)]
pub enum RequestFault {
    Denied,
    Incomplete,
    OtherBrowser,
}

/// Why the browser's request is refused: the provider denied the login, the request lacks the code
/// or the state, or the state is not the one that the browser was given.
pub open spec fn request_fault(query: CallbackQuery, cookie: Option<Seq<char>>) -> Option<
    RequestFault,
> {
    if query.error is Some {
        Some(RequestFault::Denied)
    } else if query.code is None || query.state is None {
        Some(RequestFault::Incomplete)
    } else if cookie != Some(query.state.unwrap()@) {
        Some(RequestFault::OtherBrowser)
    } else {
        None
    }
}

/// The code and the state of the browser's request. `cookie` is the cookie `oidc_state`.
pub fn check_request(query: CallbackQuery, cookie: Option<&str>) -> (result: Result<
    (String, String),
    RequestFault,
>)
    ensures
        match request_fault(query, text::str_view(cookie)) {
            Some(fault) => result == Err::<(String, String), RequestFault>(fault),
            None => result == Ok::<(String, String), RequestFault>(
                (query.code.unwrap(), query.state.unwrap()),
            ),
        },
{
    if query.error.is_some() {
        return Err(RequestFault::Denied);
    }
    match (query.code, query.state) {
        (Some(code), Some(state)) => {
            match cookie {
                Some(value) => {
                    if text::same_text(value, state.as_str()) {
                        return Ok((code, state));
                    }
                },
                None => {},
            }
            Err(RequestFault::OtherBrowser)
        },
        _ => Err(RequestFault::Incomplete),
    }
}

/// The status and the message with which the browser's request is refused.
pub open spec fn request_refusal(fault: RequestFault) -> (u16, Seq<char>) {
    match fault {
        RequestFault::Denied => (401, "OIDC login was denied"@),
        RequestFault::Incomplete => (400, "OIDC callback is missing code or state"@),
        RequestFault::OtherBrowser => (400, "OIDC state is not bound to this browser"@),
    }
}

// ---------------------------------------------------------------------------------------------
// The session and the answer
// ---------------------------------------------------------------------------------------------

/// The session is that of the identity.
pub open spec fn is_session_of(opened: OidcSession, identity: Identity) -> bool {
    &&& opened.version == SESSION_VERSION
    &&& opened.issuer@ == identity.issuer@
    &&& opened.subject@ == identity.subject@
    &&& opened.email@ == identity.email@
}

/// The session of an identity as it is stored.
pub open spec fn identity_record(identity: Identity) -> Seq<char> {
    session::session_record(
        OidcSession {
            version: SESSION_VERSION,
            issuer: identity.issuer,
            subject: identity.subject,
            email: identity.email,
        },
    )
}

/// The session of an identity.
pub fn session_of(identity: &Identity) -> (opened: OidcSession)
    ensures
        is_session_of(opened, *identity),
        session::session_record(opened) == identity_record(*identity),
{
    OidcSession {
        version: SESSION_VERSION,
        issuer: identity.issuer.clone(),
        subject: identity.subject.clone(),
        email: identity.email.clone(),
    }
}

/// What the web interface is told of a user.
pub open spec fn frontend_claims(identity: Identity) -> JsonView {
    JsonView::Object(
        seq![
            ("sub"@, JsonView::Text(identity.subject@)),
            ("email"@, JsonView::Text(identity.email@)),
            ("name"@, JsonView::Text(identity.name@)),
            ("given_name"@, JsonView::Text(identity.given_name@)),
            ("family_name"@, JsonView::Text(identity.family_name@)),
            ("is_valid"@, JsonView::Bool(true)),
        ],
    )
}

/// What the web interface is told of a user, as JSON.
pub fn frontend_payload(identity: &Identity) -> (payload: String)
    ensures
        Some(payload@) == json::json_text(frontend_claims(*identity)),
{
    let mut fields: Vec<(String, Json)> = Vec::new();
    fields.push(("sub".to_owned(), Json::Text(identity.subject.clone())));
    fields.push(("email".to_owned(), Json::Text(identity.email.clone())));
    fields.push(("name".to_owned(), Json::Text(identity.name.clone())));
    fields.push(("given_name".to_owned(), Json::Text(identity.given_name.clone())));
    fields.push(("family_name".to_owned(), Json::Text(identity.family_name.clone())));
    fields.push(("is_valid".to_owned(), Json::Bool(true)));
    proof {
        json::lemma_object_view(fields);
        assert(json::field_views(fields@) =~= frontend_claims(*identity)->Object_0);
        reveal_with_fuel(json::writable, 2);
    }
    json::write_json(&Json::Object(fields)).unwrap()
}

/// The unsigned token that the web interface is handed. `payload` is the encoded form of its
/// payload.
pub open spec fn frontend_token_text(payload: Seq<char>) -> Seq<char> {
    FRONTEND_JWT_HEADER@ + "."@ + payload + "."@
}

/// The unsigned token that the web interface is handed. `payload` is the encoded form of
/// [`frontend_payload`].
pub fn frontend_token(payload: &str) -> (token: String)
    ensures
        token@ == frontend_token_text(payload@),
{
    let mut token: String = text::joined(FRONTEND_JWT_HEADER, ".");
    token.append(payload);
    token.append(".");
    token
}

/// Where the browser goes: to the page after the login, with the token and whether the user is new
/// in the fragment.
pub open spec fn landing(cfg: EffectiveConfig, payload: Seq<char>, new_user: bool) -> Seq<char> {
    cfg.post_login_url@ + (if cfg.post_login_url@.contains('#') {
        "&"@
    } else {
        "#"@
    }) + "id_token="@ + frontend_token_text(payload) + "&new_user_login="@ + if new_user {
        "true"@
    } else {
        "false"@
    }
}

/// The answer that ends a login: the browser goes on, gets the session and loses the state.
pub open spec fn landing_reply(
    cfg: EffectiveConfig,
    new_user: bool,
    tokens: Seq<char>,
    payload: Seq<char>,
    now: i64,
    cookies: CookieSettings,
) -> reply::ReplyView {
    reply::ReplyView {
        status: 302,
        headers: seq![
            ("location"@, landing(cfg, payload, new_user)),
            (
                "set-cookie"@,
                reply::cookie_text(
                    reply::session_cookie(tokens, cfg.session_max_age as int, now as int, cookies),
                ),
            ),
            ("set-cookie"@, reply::cookie_text(reply::unbound_cookie(cookies.secure_only))),
        ],
        body: Seq::empty(),
    }
}

/// The answer that ends a login. `tokens` and `payload` are the encoded forms of the tokens of the
/// session and of [`frontend_payload`].
pub fn landing_response(
    cfg: &EffectiveConfig,
    new_user: bool,
    tokens: &str,
    payload: &str,
    now: i64,
    cookies: CookieSettings,
) -> (answer: Reply)
    requires
        0 <= now + cfg.session_max_age <= LAST_SECOND,
    ensures
        answer@ == landing_reply(*cfg, new_user, tokens@, payload@, now, cookies),
{
    let mut location: String = cfg.post_login_url.clone();
    if text::has_char(cfg.post_login_url.as_str(), '#') {
        location.append("&");
    } else {
        location.append("#");
    }
    location.append("id_token=");
    location.append(frontend_token(payload).as_str());
    location.append("&new_user_login=");
    if new_user {
        location.append("true");
    } else {
        location.append("false");
    }
    let mut headers: Vec<(String, String)> = Vec::new();
    headers.push(("location".to_owned(), location));
    headers.push(
        (
            "set-cookie".to_owned(),
            reply::cookie_header(&reply::auth_cookie(tokens, cfg.session_max_age, now, cookies)),
        ),
    );
    headers.push(
        (
            "set-cookie".to_owned(),
            reply::cookie_header(&reply::removed_state_cookie(cookies.secure_only)),
        ),
    );
    let answer: Reply = Reply { status: 302, headers, body: String::new() };
    assert(answer@.headers =~= landing_reply(
        *cfg,
        new_user,
        tokens@,
        payload@,
        now,
        cookies,
    ).headers);
    answer
}

// ---------------------------------------------------------------------------------------------
// The decisions
// ---------------------------------------------------------------------------------------------

/// The browser is answered that something went wrong.
pub open spec fn refuses(
    next: CallbackStage,
    action: CallbackAction,
    status: u16,
    message: Seq<char>,
) -> bool {
    next is Answered && (action matches CallbackAction::Answer(answer) && answer@
        == reply::error_reply(status, message))
}

/// The login goes on with the claims of a valid token: the email address is checked next.
pub open spec fn checks_email(
    cfg: EffectiveConfig,
    nonce: String,
    claims: JsonView,
    next: CallbackStage,
    action: CallbackAction,
) -> bool {
    &&& next matches CallbackStage::CheckingEmail { cfg: kept, nonce: expected, claims: read }
        && kept == cfg && expected == nonce && read@ == claims
    &&& action matches CallbackAction::CheckEmail { email } && email@ == token::email_claim(claims)
}

/// Where a login goes from the check of its token at the time: on with its claims where the token
/// is valid then, and to a refusal where it is not, or where no key is there to verify it.
pub open spec fn token_step(
    cfg: EffectiveConfig,
    nonce: String,
    id_token: Seq<char>,
    jwks: Seq<u8>,
    now: int,
    next: CallbackStage,
    action: CallbackAction,
) -> bool {
    match token::key_choice(token::jwk_set(jwks), token::token_header(id_token)) {
        Err(_) => refuses(next, action, 401, "OIDC identity was rejected"@),
        Ok(key) => match token::accepted_at(cfg, id_token, key, now) {
            Some(claims) => checks_email(cfg, nonce, claims, next, action)
                && token::claims_verified(claims, cfg, id_token, key, now),
            None => refuses(next, action, 401, "OIDC identity was rejected"@),
        },
    }
}

/// The login goes on for a user that is admitted: a session is opened, once the user has the role,
/// is added or is created, where that is left to do.
pub open spec fn admits_user(
    cfg: EffectiveConfig,
    identity: Identity,
    existing: Option<ExistingUser>,
    token: Seq<char>,
    rum_token: Seq<char>,
    next: CallbackStage,
    action: CallbackAction,
) -> bool {
    let new_user = existing is None;
    match action {
        CallbackAction::DrawSession => next == (CallbackStage::DrawingSession {
            cfg,
            identity,
            new_user,
        }) && provision::admits(Admission::Member, cfg, identity, existing, token, rum_token),
        CallbackAction::ChangeRole(change) => next == (CallbackStage::AdmittingUser {
            cfg,
            identity,
            new_user,
        }) && provision::admits(
            Admission::Promote(change),
            cfg,
            identity,
            existing,
            token,
            rum_token,
        ),
        CallbackAction::AddMember(member) => next == (CallbackStage::AdmittingUser {
            cfg,
            identity,
            new_user,
        }) && provision::admits(
            Admission::Join(member),
            cfg,
            identity,
            existing,
            token,
            rum_token,
        ),
        CallbackAction::CreateUser(user) => next == (CallbackStage::AdmittingUser {
            cfg,
            identity,
            new_user,
        }) && provision::admits(
            Admission::Create(user),
            cfg,
            identity,
            existing,
            token,
            rum_token,
        ),
        _ => false,
    }
}

/// From a stage, an event leads to the next stage and action.
pub open spec fn callback_step(
    stage: CallbackStage,
    event: CallbackEvent,
    next: CallbackStage,
    action: CallbackAction,
) -> bool {
    match (stage, event) {
        (CallbackStage::Start, CallbackEvent::Request { query, cookie }) => match request_fault(
            query,
            text::text_view(cookie),
        ) {
            Some(fault) => refuses(
                next,
                action,
                request_refusal(fault).0,
                request_refusal(fault).1,
            ),
            None => {
                &&& next == (CallbackStage::Configuring {
                    code: query.code.unwrap(),
                    state: query.state.unwrap(),
                })
                &&& action is LoadConfig
            },
        },
        (CallbackStage::Configuring { .. }, CallbackEvent::Config(None)) => refuses(
            next,
            action,
            503,
            "OIDC is unavailable"@,
        ),
        (CallbackStage::Configuring { code, state }, CallbackEvent::Config(Some(cfg))) => {
            &&& next matches CallbackStage::ReadingState { cfg: kept, code: given, state_id }
                && kept == cfg && given == code && state_id@ == session::state_id(state@)
            &&& action matches CallbackAction::ReadState { id } && id@ == session::state_id(state@)
        },
        (CallbackStage::ReadingState { .. }, CallbackEvent::StateRead(None)) => refuses(
            next,
            action,
            400,
            "OIDC state is invalid"@,
        ),
        (
            CallbackStage::ReadingState { cfg, code, state_id },
            CallbackEvent::StateRead(Some(stored)),
        ) => {
            &&& next == (CallbackStage::ConsumingState { cfg, code, stored })
            &&& action matches CallbackAction::ConsumeState { id } && id@ == state_id@
        },
        (
            CallbackStage::ConsumingState { cfg, code, stored },
            CallbackEvent::StateConsumed(true),
        ) => match text::without_prefix(stored@, session::OIDC_STATE_SESSION_PREFIX@) {
            None => refuses(next, action, 400, "OIDC state is invalid"@),
            Some(content) => {
                &&& next == (CallbackStage::DecodingState { cfg, code })
                &&& action matches CallbackAction::DecodeState { payload } && payload@ == content
            },
        },
        (CallbackStage::DecodingState { cfg, code }, CallbackEvent::StateDecoded { started, now }) => {
            match started {
                None => refuses(next, action, 400, "OIDC state is invalid"@),
                Some(login) => if !session::state_in_time(login.created_at, now, cfg.state_ttl) {
                    refuses(next, action, 400, "OIDC state has expired"@)
                } else {
                    &&& next == (CallbackStage::Discovering { cfg, code, started: login })
                    &&& action matches CallbackAction::Discover { url } && url@
                        == config::discovery_target(cfg)
                },
            }
        },
        (
            CallbackStage::Discovering { cfg, code, started },
            CallbackEvent::Provider(Some(metadata)),
        ) => if config::discovery_fault(cfg, metadata) is Some {
            refuses(next, action, 502, "OIDC provider is unavailable"@)
        } else {
            &&& next == (CallbackStage::Exchanging {
                cfg,
                nonce: started.nonce,
                jwks_uri: metadata.jwks_uri,
            })
            &&& action matches CallbackAction::Exchange(request) && token::exchanges_code(
                request,
                cfg,
                metadata,
                code@,
                started.verifier@,
            )
        },
        (CallbackStage::Discovering { .. }, CallbackEvent::Provider(None)) => refuses(
            next,
            action,
            502,
            "OIDC provider is unavailable"@,
        ),
        (CallbackStage::Exchanging { .. }, CallbackEvent::IdToken(None)) => refuses(
            next,
            action,
            401,
            "OIDC login failed"@,
        ),
        (
            CallbackStage::Exchanging { cfg, nonce, jwks_uri },
            CallbackEvent::IdToken(Some(id_token)),
        ) => {
            &&& next == (CallbackStage::FetchingKeys { cfg, nonce, id_token })
            &&& action matches CallbackAction::FetchKeys { url } && url@ == jwks_uri@
        },
        (CallbackStage::FetchingKeys { .. }, CallbackEvent::Keys(None)) => refuses(
            next,
            action,
            401,
            "OIDC identity was rejected"@,
        ),
        (
            CallbackStage::FetchingKeys { cfg, nonce, id_token },
            CallbackEvent::Keys(Some(jwks)),
        ) => exists|now: int|
            #[trigger] token_step(cfg, nonce, id_token@, jwks@, now, next, action),
        (
            CallbackStage::CheckingEmail { cfg, nonce, claims },
            CallbackEvent::EmailChecked(valid),
        ) => if token::identity_fault(cfg, claims@, nonce@, valid) is Some {
            refuses(next, action, 401, "OIDC identity was rejected"@)
        } else {
            &&& next matches CallbackStage::ReadingEmailBinding { cfg: kept, identity } && kept
                == cfg && token::identity_of(identity, cfg, claims@) && (
            action matches CallbackAction::ReadBinding { key } && key@ == binding::email_key_text(
                identity,
            ))
        },
        (
            CallbackStage::ReadingEmailBinding { cfg, identity },
            CallbackEvent::BindingRead(Some(existing)),
        ) => if binding::binding_admits(binding::optional_binding_view(existing), identity) {
            &&& next == (CallbackStage::ReadingSubjectBinding { cfg, identity })
            &&& action matches CallbackAction::ReadBinding { key } && key@
                == binding::subject_key_text(identity)
        } else {
            refuses(next, action, 401, "OIDC identity was rejected"@)
        },
        (
            CallbackStage::ReadingSubjectBinding { cfg, identity },
            CallbackEvent::BindingRead(Some(existing)),
        ) => if binding::binding_admits(binding::optional_binding_view(existing), identity) {
            &&& next == (CallbackStage::WritingEmailBinding { cfg, identity })
            &&& action matches CallbackAction::WriteBinding { key, value } && key@
                == binding::email_key_text(identity) && value@ == binding::binding_json(
                binding::binding_of(identity),
            )
        } else {
            refuses(next, action, 401, "OIDC identity was rejected"@)
        },
        (
            CallbackStage::WritingEmailBinding { cfg, identity },
            CallbackEvent::BindingWritten(true),
        ) => {
            &&& next == (CallbackStage::WritingSubjectBinding { cfg, identity })
            &&& action matches CallbackAction::WriteBinding { key, value } && key@
                == binding::subject_key_text(identity) && value@ == binding::binding_json(
                binding::binding_of(identity),
            )
        },
        (
            CallbackStage::WritingSubjectBinding { cfg, identity },
            CallbackEvent::BindingWritten(true),
        ) => {
            &&& next == (CallbackStage::EnsuringOrg { cfg, identity })
            &&& action matches CallbackAction::EnsureOrg { org } && org@ == cfg.default_org@
        },
        (CallbackStage::ReadingEmailBinding { .. }, CallbackEvent::BindingRead(None)) => refuses(
            next,
            action,
            401,
            "OIDC identity was rejected"@,
        ),
        (CallbackStage::ReadingSubjectBinding { .. }, CallbackEvent::BindingRead(None)) => refuses(
            next,
            action,
            401,
            "OIDC identity was rejected"@,
        ),
        (
            CallbackStage::WritingEmailBinding { .. },
            CallbackEvent::BindingWritten(false),
        ) => refuses(next, action, 401, "OIDC identity was rejected"@),
        (
            CallbackStage::WritingSubjectBinding { .. },
            CallbackEvent::BindingWritten(false),
        ) => refuses(next, action, 401, "OIDC identity was rejected"@),
        (CallbackStage::EnsuringOrg { .. }, CallbackEvent::OrgEnsured(false)) => refuses(
            next,
            action,
            403,
            "OIDC user is not allowed"@,
        ),
        (CallbackStage::EnsuringOrg { cfg, identity }, CallbackEvent::OrgEnsured(true)) => {
            &&& next == (CallbackStage::FindingUser { cfg, identity })
            &&& action matches CallbackAction::FindUser { email } && email@ == identity.email@
        },
        (
            CallbackStage::FindingUser { cfg, identity },
            CallbackEvent::UserFound { existing, token, rum_token },
        ) => if provision::provision_fault(existing) is Some {
            refuses(next, action, 403, "OIDC user is not allowed"@)
        } else {
            admits_user(cfg, identity, existing, token@, rum_token@, next, action)
        },
        (CallbackStage::AdmittingUser { .. }, CallbackEvent::UserAdmitted(false)) => refuses(
            next,
            action,
            403,
            "OIDC user is not allowed"@,
        ),
        (
            CallbackStage::AdmittingUser { cfg, identity, new_user },
            CallbackEvent::UserAdmitted(true),
        ) => {
            &&& next == (CallbackStage::DrawingSession { cfg, identity, new_user })
            &&& action is DrawSession
        },
        (
            CallbackStage::DrawingSession { cfg, identity, new_user },
            CallbackEvent::SessionDrawn { id: session_id, now },
        ) => {
            &&& next == (CallbackStage::StoringSession { cfg, identity, new_user, session_id })
            &&& action matches CallbackAction::StoreSession { id, value, expires_at } && id@
                == session_id@ && value@ == identity_record(identity) && expires_at == now
                + cfg.session_max_age
        },
        (
            CallbackStage::StoringSession { cfg, identity, new_user, session_id },
            CallbackEvent::SessionStored(true),
        ) => {
            &&& next == (CallbackStage::Encoding { cfg, new_user })
            &&& action matches CallbackAction::Encode { tokens, payload } && tokens@
                == reply::auth_tokens_json(session_id@) && Some(payload@) == json::json_text(
                frontend_claims(identity),
            )
        },
        (
            CallbackStage::Encoding { cfg, new_user },
            CallbackEvent::Encoded { tokens, payload, now, cookies },
        ) => {
            &&& next is Answered
            &&& action matches CallbackAction::Answer(answer) && answer@ == landing_reply(
                cfg,
                new_user,
                tokens@,
                payload@,
                now,
                cookies,
            )
        },
        _ => refuses(next, action, 500, "OIDC login failed"@),
    }
}

fn refuse(status: u16, message: &str) -> (step: (CallbackStage, CallbackAction))
    ensures
        refuses(step.0, step.1, status, message@),
{
    (CallbackStage::Answered, CallbackAction::Answer(reply::error_response(status, message)))
}

fn refuse_request(fault: RequestFault) -> (step: (CallbackStage, CallbackAction))
    ensures
        refuses(step.0, step.1, request_refusal(fault).0, request_refusal(fault).1),
{
    match fault {
        RequestFault::Denied => refuse(401, "OIDC login was denied"),
        RequestFault::Incomplete => refuse(400, "OIDC callback is missing code or state"),
        RequestFault::OtherBrowser => refuse(400, "OIDC state is not bound to this browser"),
    }
}

/// Where a login goes from the check of its token, for each result of that.
pub fn after_token(cfg: EffectiveConfig, nonce: String, checked: Result<Json, TokenError>) -> (step: (
    CallbackStage,
    CallbackAction,
))
    ensures
        match checked {
            Ok(claims) => checks_email(cfg, nonce, claims@, step.0, step.1),
            Err(_) => refuses(step.0, step.1, 401, "OIDC identity was rejected"@),
        },
{
    match checked {
        Ok(claims) => {
            let email: String = token::claimed_email(&claims);
            (
                CallbackStage::CheckingEmail { cfg, nonce, claims },
                CallbackAction::CheckEmail { email },
            )
        },
        Err(_) => refuse(401, "OIDC identity was rejected"),
    }
}

/// What is done next to complete a login, and the stage that it then is in.
pub fn callback(stage: CallbackStage, event: CallbackEvent) -> (step: (
    CallbackStage,
    CallbackAction,
))
    requires
        stage.well_formed(),
        event.well_formed(),
    ensures
        callback_step(stage, event, step.0, step.1),
        step.0.well_formed(),
{
    match (stage, event) {
        (CallbackStage::Start, CallbackEvent::Request { query, cookie }) => {
            match check_request(query, text::as_text(&cookie)) {
                Ok((code, state)) => (
                    CallbackStage::Configuring { code, state },
                    CallbackAction::LoadConfig,
                ),
                Err(fault) => refuse_request(fault),
            }
        },
        (CallbackStage::Configuring { code, state }, CallbackEvent::Config(cfg)) => match cfg {
            Some(cfg) => {
                let state_id: String = session::state_session_id(state.as_str());
                let id: String = state_id.clone();
                (
                    CallbackStage::ReadingState { cfg, code, state_id },
                    CallbackAction::ReadState { id },
                )
            },
            None => refuse(503, "OIDC is unavailable"),
        },
        (CallbackStage::ReadingState { cfg, code, state_id }, CallbackEvent::StateRead(stored)) => {
            match stored {
                Some(stored) => (
                    CallbackStage::ConsumingState { cfg, code, stored },
                    CallbackAction::ConsumeState { id: state_id },
                ),
                None => refuse(400, "OIDC state is invalid"),
            }
        },
        (
            CallbackStage::ConsumingState { cfg, code, stored },
            CallbackEvent::StateConsumed(true),
        ) => {
            match session::login_state_payload(stored.as_str()) {
                Some(payload) => (
                    CallbackStage::DecodingState { cfg, code },
                    CallbackAction::DecodeState { payload: payload.to_owned() },
                ),
                None => refuse(400, "OIDC state is invalid"),
            }
        },
        (CallbackStage::DecodingState { cfg, code }, CallbackEvent::StateDecoded { started, now }) => {
            match started {
                Some(started) => {
                    if !session::is_state_in_time(started.created_at, now, cfg.state_ttl) {
                        return refuse(400, "OIDC state has expired");
                    }
                    let url: String = config::discovery_url(&cfg);
                    (
                        CallbackStage::Discovering { cfg, code, started },
                        CallbackAction::Discover { url },
                    )
                },
                None => refuse(400, "OIDC state is invalid"),
            }
        },
        (CallbackStage::Discovering { cfg, code, started }, CallbackEvent::Provider(metadata)) => {
            let metadata: ProviderMetadata = match metadata {
                Some(metadata) => metadata,
                None => {
                    return refuse(502, "OIDC provider is unavailable");
                },
            };
            match config::discover(&cfg, metadata) {
                Ok(metadata) => {
                    let request: TokenRequest = token::exchange_code(
                        &cfg,
                        &metadata,
                        code.as_str(),
                        started.verifier.as_str(),
                    );
                    (
                        CallbackStage::Exchanging {
                            cfg,
                            nonce: started.nonce,
                            jwks_uri: metadata.jwks_uri,
                        },
                        CallbackAction::Exchange(request),
                    )
                },
                Err(_) => refuse(502, "OIDC provider is unavailable"),
            }
        },
        (CallbackStage::Exchanging { cfg, nonce, jwks_uri }, CallbackEvent::IdToken(id_token)) => {
            match id_token {
                Some(id_token) => (
                    CallbackStage::FetchingKeys { cfg, nonce, id_token },
                    CallbackAction::FetchKeys { url: jwks_uri },
                ),
                None => refuse(401, "OIDC login failed"),
            }
        },
        (CallbackStage::FetchingKeys { cfg, nonce, id_token }, CallbackEvent::Keys(jwks)) => {
            let jwks: Vec<u8> = match jwks {
                Some(jwks) => jwks,
                None => {
                    return refuse(401, "OIDC identity was rejected");
                },
            };
            let checked: Result<Json, TokenError> = token::token_claims(
                &cfg,
                jwks.as_slice(),
                id_token.as_str(),
            );
            let ghost result: Result<Json, TokenError> = checked;
            let step: (CallbackStage, CallbackAction) = after_token(cfg, nonce, checked);
            proof {
                match token::key_choice(token::jwk_set(jwks@), token::token_header(id_token@)) {
                    Ok(key) => {
                        let now = choose|now: int|
                            #[trigger] token::checked_at(result, cfg, id_token@, key, now);
                        assert(token_step(cfg, nonce, id_token@, jwks@, now, step.0, step.1));
                    },
                    Err(_) => {
                        assert(token_step(cfg, nonce, id_token@, jwks@, 0, step.0, step.1));
                    },
                }
            }
            step
        },
        (
            CallbackStage::CheckingEmail { cfg, nonce, claims },
            CallbackEvent::EmailChecked(valid),
        ) => match token::validate_id_token(&cfg, &claims, nonce.as_str(), valid) {
            Ok(identity) => {
                let key: String = binding::email_key(&identity);
                (
                    CallbackStage::ReadingEmailBinding { cfg, identity },
                    CallbackAction::ReadBinding { key },
                )
            },
            Err(_) => refuse(401, "OIDC identity was rejected"),
        },
        (
            CallbackStage::ReadingEmailBinding { cfg, identity },
            CallbackEvent::BindingRead(Some(existing)),
        ) => {
            if binding::check_binding(&identity, &existing).is_err() {
                return refuse(401, "OIDC identity was rejected");
            }
            let key: String = binding::subject_key(&identity);
            (
                CallbackStage::ReadingSubjectBinding { cfg, identity },
                CallbackAction::ReadBinding { key },
            )
        },
        (
            CallbackStage::ReadingSubjectBinding { cfg, identity },
            CallbackEvent::BindingRead(Some(existing)),
        ) => {
            if binding::check_binding(&identity, &existing).is_err() {
                return refuse(401, "OIDC identity was rejected");
            }
            let key: String = binding::email_key(&identity);
            let value: String = binding::binding_value(&identity);
            (
                CallbackStage::WritingEmailBinding { cfg, identity },
                CallbackAction::WriteBinding { key, value },
            )
        },
        (
            CallbackStage::WritingEmailBinding { cfg, identity },
            CallbackEvent::BindingWritten(true),
        ) => {
            let key: String = binding::subject_key(&identity);
            let value: String = binding::binding_value(&identity);
            (
                CallbackStage::WritingSubjectBinding { cfg, identity },
                CallbackAction::WriteBinding { key, value },
            )
        },
        (
            CallbackStage::WritingSubjectBinding { cfg, identity },
            CallbackEvent::BindingWritten(true),
        ) => {
            let org: String = cfg.default_org.clone();
            (CallbackStage::EnsuringOrg { cfg, identity }, CallbackAction::EnsureOrg { org })
        },
        (
            CallbackStage::ReadingEmailBinding { cfg: _, identity: _ },
            CallbackEvent::BindingRead(None),
        ) => refuse(401, "OIDC identity was rejected"),
        (
            CallbackStage::ReadingSubjectBinding { cfg: _, identity: _ },
            CallbackEvent::BindingRead(None),
        ) => refuse(401, "OIDC identity was rejected"),
        (
            CallbackStage::WritingEmailBinding { cfg: _, identity: _ },
            CallbackEvent::BindingWritten(false),
        ) => refuse(401, "OIDC identity was rejected"),
        (
            CallbackStage::WritingSubjectBinding { cfg: _, identity: _ },
            CallbackEvent::BindingWritten(false),
        ) => refuse(401, "OIDC identity was rejected"),
        (CallbackStage::EnsuringOrg { cfg, identity }, CallbackEvent::OrgEnsured(ensured)) => {
            if !ensured {
                return refuse(403, "OIDC user is not allowed");
            }
            let email: String = identity.email.clone();
            (CallbackStage::FindingUser { cfg, identity }, CallbackAction::FindUser { email })
        },
        (
            CallbackStage::FindingUser { cfg, identity },
            CallbackEvent::UserFound { existing, token, rum_token },
        ) => {
            let new_user: bool = existing.is_none();
            match provision::provision_user(
                &cfg,
                &identity,
                &existing,
                token.as_str(),
                rum_token.as_str(),
            ) {
                Ok(Admission::Member) => (
                    CallbackStage::DrawingSession { cfg, identity, new_user },
                    CallbackAction::DrawSession,
                ),
                Ok(Admission::Promote(change)) => (
                    CallbackStage::AdmittingUser { cfg, identity, new_user },
                    CallbackAction::ChangeRole(change),
                ),
                Ok(Admission::Join(member)) => (
                    CallbackStage::AdmittingUser { cfg, identity, new_user },
                    CallbackAction::AddMember(member),
                ),
                Ok(Admission::Create(user)) => (
                    CallbackStage::AdmittingUser { cfg, identity, new_user },
                    CallbackAction::CreateUser(user),
                ),
                Err(_) => refuse(403, "OIDC user is not allowed"),
            }
        },
        (
            CallbackStage::AdmittingUser { cfg, identity, new_user },
            CallbackEvent::UserAdmitted(admitted),
        ) => {
            if !admitted {
                return refuse(403, "OIDC user is not allowed");
            }
            (
                CallbackStage::DrawingSession { cfg, identity, new_user },
                CallbackAction::DrawSession,
            )
        },
        (
            CallbackStage::DrawingSession { cfg, identity, new_user },
            CallbackEvent::SessionDrawn { id, now },
        ) => {
            let value: String = session::session_value(&session_of(&identity));
            let expires_at: i64 = now + cfg.session_max_age;
            let session_id: String = id.clone();
            (
                CallbackStage::StoringSession { cfg, identity, new_user, session_id },
                CallbackAction::StoreSession { id, value, expires_at },
            )
        },
        (
            CallbackStage::StoringSession { cfg, identity, new_user, session_id },
            CallbackEvent::SessionStored(true),
        ) => {
            let tokens: String = reply::auth_tokens_text(session_id.as_str());
            let payload: String = frontend_payload(&identity);
            (
                CallbackStage::Encoding { cfg, new_user },
                CallbackAction::Encode { tokens, payload },
            )
        },
        (
            CallbackStage::Encoding { cfg, new_user },
            CallbackEvent::Encoded { tokens, payload, now, cookies },
        ) => (
            CallbackStage::Answered,
            CallbackAction::Answer(
                landing_response(&cfg, new_user, tokens.as_str(), payload.as_str(), now, cookies),
            ),
        ),
        _ => refuse(500, "OIDC login failed"),
    }
}

// ---------------------------------------------------------------------------------------------
// Laws
// ---------------------------------------------------------------------------------------------

/// A step that was taken. `now` is what the clock shows where the step reads it.
pub struct CallbackStep {
    pub stage: CallbackStage,
    pub event: CallbackEvent,
    pub next: CallbackStage,
    pub action: CallbackAction,
    pub now: int,
}

/// The step is one that [`callback`] takes at its time.
#[verifier::opaque]
pub open spec fn taken(step: CallbackStep) -> bool {
    &&& callback_step(step.stage, step.event, step.next, step.action)
    &&& match (step.stage, step.event) {
        (
            CallbackStage::FetchingKeys { cfg, nonce, id_token },
            CallbackEvent::Keys(Some(jwks)),
        ) => token_step(cfg, nonce, id_token@, jwks@, step.now, step.next, step.action),
        _ => true,
    }
}

/// Every step of [`callback`] is taken at some time.
pub proof fn every_step_has_its_time(
    stage: CallbackStage,
    event: CallbackEvent,
    next: CallbackStage,
    action: CallbackAction,
)
    requires
        callback_step(stage, event, next, action),
    ensures
        exists|now: int| #[trigger] taken(CallbackStep { stage, event, next, action, now }),
{
    reveal(taken);
    let now = match (stage, event) {
        (
            CallbackStage::FetchingKeys { cfg, nonce, id_token },
            CallbackEvent::Keys(Some(jwks)),
        ) => choose|now: int|
            #[trigger] token_step(cfg, nonce, id_token@, jwks@, now, next, action),
        _ => 0,
    };
    assert(taken(CallbackStep { stage, event, next, action, now }));
}

/// The steps were taken one after the other, from the start.
pub open spec fn callback_run(run: Seq<CallbackStep>) -> bool {
    &&& run.len() > 0
    &&& run[0].stage is Start
    &&& forall|i: int| 0 <= i < run.len() ==> taken(#[trigger] run[i])
    &&& forall|i: int| 1 <= i < run.len() ==> (#[trigger] run[i]).stage == run[i - 1].next
}

/// How many steps it takes to come to a stage; one more where the user had to be added or created.
spec fn steps_to(stage: CallbackStage) -> int {
    match stage {
        CallbackStage::Start => 0,
        CallbackStage::Configuring { .. } => 1,
        CallbackStage::ReadingState { .. } => 2,
        CallbackStage::ConsumingState { .. } => 3,
        CallbackStage::DecodingState { .. } => 4,
        CallbackStage::Discovering { .. } => 5,
        CallbackStage::Exchanging { .. } => 6,
        CallbackStage::FetchingKeys { .. } => 7,
        CallbackStage::CheckingEmail { .. } => 8,
        CallbackStage::ReadingEmailBinding { .. } => 9,
        CallbackStage::ReadingSubjectBinding { .. } => 10,
        CallbackStage::WritingEmailBinding { .. } => 11,
        CallbackStage::WritingSubjectBinding { .. } => 12,
        CallbackStage::EnsuringOrg { .. } => 13,
        CallbackStage::FindingUser { .. } => 14,
        CallbackStage::AdmittingUser { .. } => 15,
        CallbackStage::DrawingSession { .. } => 16,
        CallbackStage::StoringSession { .. } => 17,
        CallbackStage::Encoding { .. } => 18,
        CallbackStage::Answered => 19,
    }
}

proof fn lemma_step_advances(step: CallbackStep)
    requires
        taken(step),
    ensures
        step.next is Answered || steps_to(step.next) == steps_to(step.stage) + 1 || (
        step.stage is FindingUser && step.next is DrawingSession),
        step.stage is Answered ==> step.next is Answered,
{
    reveal(taken);
}

/// What a step does that does not end the login.
spec fn goes_on(step: CallbackStep) -> bool {
    match step.stage {
        CallbackStage::Start => browser_bound(step) && (
        step.event matches CallbackEvent::Request { query, .. } && (
        query.state matches Some(given) && (step.next matches CallbackStage::Configuring {
            state,
            ..
        } && state == given))),
        CallbackStage::Configuring { state, .. } => step.next matches CallbackStage::ReadingState {
            state_id,
            ..
        } && state_id@ == session::state_id(state@),
        CallbackStage::ReadingState { cfg, state_id, .. } => (
        step.next matches CallbackStage::ConsumingState { cfg: kept, .. } && kept == cfg) && (
        step.action matches CallbackAction::ConsumeState { id } && id@ == state_id@),
        CallbackStage::ConsumingState { cfg, .. } => step.event == CallbackEvent::StateConsumed(true)
            && (step.next matches CallbackStage::DecodingState { cfg: kept, .. } && kept == cfg),
        CallbackStage::DecodingState { cfg, .. } => state_accepted(step, cfg) && (
        step.next matches CallbackStage::Discovering { cfg: kept, started, .. } && kept == cfg
            && step.event->started == Some(started)),
        CallbackStage::Discovering { cfg, started, .. } => (
        step.next matches CallbackStage::Exchanging { cfg: kept, nonce, .. } && kept == cfg && nonce
            == started.nonce) && (step.action matches CallbackAction::Exchange(request)
            && text::pair_views(request.form@).contains(("code_verifier"@, started.verifier@))),
        CallbackStage::Exchanging { cfg, nonce, .. } => step.next matches CallbackStage::FetchingKeys {
            cfg: kept,
            nonce: expected,
            ..
        } && kept == cfg && expected == nonce,
        CallbackStage::FetchingKeys { cfg, nonce, .. } => step.next matches CallbackStage::CheckingEmail {
            cfg: kept,
            nonce: expected,
            claims,
        } && kept == cfg && expected == nonce && token_verified(step, cfg, claims@),
        CallbackStage::CheckingEmail { cfg, claims, .. } => step.next matches CallbackStage::ReadingEmailBinding {
            cfg: kept,
            identity,
        } && kept == cfg && identity_accepted(step, cfg, claims@, identity),
        CallbackStage::ReadingEmailBinding { cfg, identity } => step.next == (
        CallbackStage::ReadingSubjectBinding { cfg, identity }) && binding_accepted(
            step,
            identity,
        ),
        CallbackStage::ReadingSubjectBinding { cfg, identity } => step.next == (
        CallbackStage::WritingEmailBinding { cfg, identity }) && binding_accepted(step, identity),
        CallbackStage::WritingEmailBinding { cfg, identity } => step.next == (
        CallbackStage::WritingSubjectBinding { cfg, identity }) && step.event
            == CallbackEvent::BindingWritten(true),
        CallbackStage::WritingSubjectBinding { cfg, identity } => step.next == (
        CallbackStage::EnsuringOrg { cfg, identity }) && step.event
            == CallbackEvent::BindingWritten(true),
        CallbackStage::EnsuringOrg { cfg, identity } => step.next == (CallbackStage::FindingUser {
            cfg,
            identity,
        }),
        CallbackStage::FindingUser { cfg, identity } => account_accepted(step) && makes_admin(
            step,
            cfg,
            identity,
        ) && match step.next {
            CallbackStage::AdmittingUser { cfg: kept, identity: same, .. } => kept == cfg && same
                == identity,
            CallbackStage::DrawingSession { cfg: kept, identity: same, .. } => kept == cfg && same
                == identity && step.action is DrawSession,
            _ => false,
        },
        CallbackStage::AdmittingUser { cfg, identity, .. } => step.event
            == CallbackEvent::UserAdmitted(true) && (
        step.next matches CallbackStage::DrawingSession { cfg: kept, identity: same, .. } && kept
            == cfg && same == identity),
        _ => true,
    }
}

proof fn lemma_step_goes_on(step: CallbackStep)
    requires
        taken(step),
        !(step.next is Answered),
    ensures
        goes_on(step),
{
    reveal(taken);
    match (step.stage, step.action) {
        (
            CallbackStage::Discovering { cfg, code, started },
            CallbackAction::Exchange(request),
        ) => {
            let form = text::pair_views(request.form@);
            assert(form[3] == token::code_form(cfg, code@, started.verifier@)[3]);
            assert(form[3] == ("code_verifier"@, started.verifier@));
        },
        _ => {},
    }
}

/// Until the user is looked up, a login that was not answered has come one stage further with each
/// step.
proof fn lemma_run_advances(run: Seq<CallbackStep>, k: int, i: int)
    requires
        callback_run(run),
        0 <= i <= k < run.len(),
        !(run[k].stage is Answered),
    ensures
        !(run[i].stage is Answered),
        i <= 14 ==> steps_to(run[i].stage) == i,
        i > 14 ==> steps_to(run[i].stage) > 14,
    decreases k - i,
{
    if i < k {
        lemma_run_advances(run, k, i + 1);
        lemma_step_advances(run[i]);
        assert(run[i + 1].stage == run[i].next);
    }
    lemma_stage_count(run, i);
}

proof fn lemma_stage_count(run: Seq<CallbackStep>, i: int)
    requires
        callback_run(run),
        0 <= i < run.len(),
    ensures
        run[i].stage is Answered || (i <= 14 ==> steps_to(run[i].stage) == i),
        run[i].stage is Answered || (i > 14 ==> steps_to(run[i].stage) > 14),
    decreases i,
{
    if i > 0 {
        lemma_stage_count(run, i - 1);
        lemma_step_advances(run[i - 1]);
        assert(run[i].stage == run[i - 1].next);
    }
}

/// The steps before one that is taken from an open stage went on.
proof fn lemma_run_went_on(run: Seq<CallbackStep>, k: int, i: int)
    requires
        callback_run(run),
        0 <= i < k < run.len(),
        !(run[k].stage is Answered),
    ensures
        i <= 14 ==> steps_to(run[i].stage) == i,
        goes_on(run[i]),
        run[i + 1].stage == run[i].next,
{
    lemma_run_advances(run, k, i);
    lemma_run_advances(run, k, i + 1);
    assert(run[i + 1].stage == run[i].next);
    lemma_step_goes_on(run[i]);
}

/// The code of a login is exchanged only after the state of the login was deleted: its deletion was
/// asked for, and it succeeded. Where it failed, the login is refused, so that no state can serve a
/// second time.
pub proof fn the_state_is_consumed_before_the_code_is_exchanged(run: Seq<CallbackStep>, k: int)
    requires
        callback_run(run),
        0 <= k < run.len(),
        run[k].action is Exchange,
    ensures
        exists|i: int, j: int|
            #![trigger run[i], run[j]]
            0 <= i < j && j + 1 < k && (run[i].event matches CallbackEvent::Request { query, .. }
                && (query.state matches Some(state) && (
            run[j].action matches CallbackAction::ConsumeState { id } && id@ == session::state_id(
                state@,
            )))) && run[j + 1].event == CallbackEvent::StateConsumed(true),
{
    lemma_stage_of_action(run[k]);
    lemma_stage_count(run, k);
    lemma_run_went_on(run, k, 0);
    lemma_run_went_on(run, k, 1);
    lemma_run_went_on(run, k, 2);
    lemma_run_went_on(run, k, 3);
    assert(run[0].event is Request);
    assert(run[2].action is ConsumeState);
    assert(run[3].event == CallbackEvent::StateConsumed(true));
}

/// Where the state of a login could not be deleted, the login is refused.
pub proof fn a_state_that_stays_is_refused(
    stage: CallbackStage,
    next: CallbackStage,
    action: CallbackAction,
)
    requires
        stage is ConsumingState,
        callback_step(stage, CallbackEvent::StateConsumed(false), next, action),
    ensures
        refuses(next, action, 500, "OIDC login failed"@),
{
}

proof fn lemma_stage_of_action(step: CallbackStep)
    requires
        taken(step),
    ensures
        step.action is Exchange ==> step.stage is Discovering && !(step.next is Answered),
        step.action is ConsumeState ==> step.stage is ReadingState,
        step.action is StoreSession ==> step.stage is DrawingSession,
        step.action matches CallbackAction::StoreSession { value, .. } ==> value@
            == identity_record(step.stage->DrawingSession_identity),
        step.action matches CallbackAction::Answer(answer) && answer@.status == 302
            ==> step.stage is Encoding,
        step.next is Encoding ==> step.event == CallbackEvent::SessionStored(true),
{
    reveal(taken);
}

/// The browser that came back is the one that started the login.
pub open spec fn browser_bound(step: CallbackStep) -> bool {
    step.event matches CallbackEvent::Request { query, cookie } && request_fault(
        query,
        text::text_view(cookie),
    ) is None
}

/// The state of the login was found, and in its time.
pub open spec fn state_accepted(step: CallbackStep, cfg: EffectiveConfig) -> bool {
    step.event matches CallbackEvent::StateDecoded { started: Some(started), now }
        && session::state_in_time(started.created_at, now, cfg.state_ttl)
}

/// The claims are those of a token that a key of the provider signed for this client.
pub open spec fn token_verified(step: CallbackStep, cfg: EffectiveConfig, claims: JsonView) -> bool {
    step.stage matches CallbackStage::FetchingKeys { id_token, .. } && (
    step.event matches CallbackEvent::Keys(Some(jwks)) && (token::key_choice(
        token::jwk_set(jwks@),
        token::token_header(id_token@),
    ) matches Ok(key) && token::claims_verified(claims, cfg, id_token@, key, step.now)))
}

/// The identity is the one that the claims name, and they break no rule.
pub open spec fn identity_accepted(
    step: CallbackStep,
    cfg: EffectiveConfig,
    claims: JsonView,
    identity: Identity,
) -> bool {
    step.stage matches CallbackStage::CheckingEmail { nonce, .. } && (
    step.event matches CallbackEvent::EmailChecked(valid) && token::identity_fault(
        cfg,
        claims,
        nonce@,
        valid,
    ) is None && token::identity_of(identity, cfg, claims))
}

/// What was stored under one of the keys of the identity does not bind it to another account.
pub open spec fn binding_accepted(step: CallbackStep, identity: Identity) -> bool {
    step.event matches CallbackEvent::BindingRead(Some(existing)) && binding::binding_admits(
        binding::optional_binding_view(existing),
        identity,
    )
}

/// The account with the email address, where there is one, is no one else's.
pub open spec fn account_accepted(step: CallbackStep) -> bool {
    step.event matches CallbackEvent::UserFound { existing, .. } && provision::provision_fault(
        existing,
    ) is None
}

/// The identity is an administrator of the default organization, or is made one by the action.
pub open spec fn makes_admin(step: CallbackStep, cfg: EffectiveConfig, identity: Identity) -> bool {
    step.event matches CallbackEvent::UserFound { existing, .. } && match step.action {
        CallbackAction::DrawSession => provision::ends_as_admin(
            Admission::Member,
            cfg,
            identity,
            existing,
        ),
        CallbackAction::ChangeRole(change) => provision::ends_as_admin(
            Admission::Promote(change),
            cfg,
            identity,
            existing,
        ),
        CallbackAction::AddMember(member) => provision::ends_as_admin(
            Admission::Join(member),
            cfg,
            identity,
            existing,
        ),
        CallbackAction::CreateUser(user) => provision::ends_as_admin(
            Admission::Create(user),
            cfg,
            identity,
            existing,
        ),
        _ => false,
    }
}

/// A session is opened for an identity only once everything was checked and done, in this order:
/// the browser is the one that started the login, the state was deleted and in its time, the token
/// was signed by the provider for this client, its claims break no rule, both keys of the identity
/// admit it, both bindings were written, the account is no one else's, and the identity is an
/// administrator of the default organization, or was made one. The session is that of the identity.
pub proof fn a_session_is_opened_only_once_all_is_checked(run: Seq<CallbackStep>, k: int)
    requires
        callback_run(run),
        0 <= k < run.len(),
        run[k].action is StoreSession,
    ensures
        run[k].stage matches CallbackStage::DrawingSession { cfg, identity, .. } && {
            &&& run[k].action matches CallbackAction::StoreSession { value, .. } && value@
                == identity_record(identity)
            &&& k >= 15
            &&& browser_bound(run[0])
            &&& run[3].event == CallbackEvent::StateConsumed(true)
            &&& state_accepted(run[4], cfg)
            &&& exists|claims: JsonView| #[trigger]
                token_verified(run[7], cfg, claims) && identity_accepted(
                    run[8],
                    cfg,
                    claims,
                    identity,
                )
            &&& binding_accepted(run[9], identity)
            &&& binding_accepted(run[10], identity)
            &&& run[11].event == CallbackEvent::BindingWritten(true)
            &&& run[12].event == CallbackEvent::BindingWritten(true)
            &&& account_accepted(run[14])
            &&& makes_admin(run[14], cfg, identity)
            &&& run[14].action is DrawSession || run[15].event == CallbackEvent::UserAdmitted(true)
        },
{
    lemma_stage_of_action(run[k]);
    lemma_stage_count(run, k);
    lemma_identity_is_accepted(run, k);
    lemma_identity_is_kept(run, k);
}

proof fn lemma_identity_is_accepted(run: Seq<CallbackStep>, k: int)
    requires
        callback_run(run),
        9 < k < run.len(),
        !(run[k].stage is Answered),
    ensures
        run[9].stage matches CallbackStage::ReadingEmailBinding { cfg, identity } && {
            &&& browser_bound(run[0])
            &&& run[3].event == CallbackEvent::StateConsumed(true)
            &&& state_accepted(run[4], cfg)
            &&& exists|claims: JsonView| #[trigger]
                token_verified(run[7], cfg, claims) && identity_accepted(
                    run[8],
                    cfg,
                    claims,
                    identity,
                )
        },
{
    lemma_run_went_on(run, k, 0);
    lemma_run_went_on(run, k, 1);
    lemma_run_went_on(run, k, 2);
    lemma_run_went_on(run, k, 3);
    lemma_run_went_on(run, k, 4);
    lemma_run_went_on(run, k, 5);
    lemma_run_went_on(run, k, 6);
    lemma_run_went_on(run, k, 7);
    lemma_run_went_on(run, k, 8);
    let claims = run[8].stage->CheckingEmail_claims;
    assert(token_verified(run[7], run[8].stage->CheckingEmail_cfg, claims@));
}

/// From the first look at its bindings until its session is opened, a login is for one identity,
/// and it goes on only where its bindings and its account admit that identity.
proof fn lemma_identity_is_kept(run: Seq<CallbackStep>, k: int)
    requires
        callback_run(run),
        15 <= k < run.len(),
        run[k].stage is DrawingSession,
    ensures
        run[9].stage matches CallbackStage::ReadingEmailBinding { cfg, identity } && {
            &&& run[k].stage matches CallbackStage::DrawingSession {
                cfg: kept,
                identity: same,
                ..
            } && kept == cfg && same == identity
            &&& binding_accepted(run[9], identity)
            &&& binding_accepted(run[10], identity)
            &&& run[11].event == CallbackEvent::BindingWritten(true)
            &&& run[12].event == CallbackEvent::BindingWritten(true)
            &&& account_accepted(run[14])
            &&& makes_admin(run[14], cfg, identity)
            &&& run[14].action is DrawSession || run[15].event == CallbackEvent::UserAdmitted(true)
        },
{
    lemma_run_went_on(run, k, 9);
    lemma_run_went_on(run, k, 10);
    lemma_run_went_on(run, k, 11);
    lemma_run_went_on(run, k, 12);
    lemma_run_went_on(run, k, 13);
    lemma_run_went_on(run, k, 14);
    if k > 15 {
        lemma_run_went_on(run, k, 15);
        if run[15].stage is DrawingSession {
            lemma_opened_once(run, 15, k);
        } else if k > 16 {
            lemma_opened_once(run, 16, k);
        }
    }
}

/// A login comes to the opening of its session once.
proof fn lemma_opened_once(run: Seq<CallbackStep>, i: int, k: int)
    requires
        callback_run(run),
        0 <= i < k < run.len(),
        steps_to(run[i].stage) >= 16,
    ensures
        steps_to(run[k].stage) > 16,
    decreases k - i,
{
    lemma_step_advances(run[i]);
    assert(run[i + 1].stage == run[i].next);
    if i + 1 < k {
        lemma_opened_once(run, i + 1, k);
    }
}

/// The state of a login is left alone unless the browser that started the login comes back with
/// it.
pub proof fn only_the_browser_of_a_login_consumes_its_state(run: Seq<CallbackStep>, k: int)
    requires
        callback_run(run),
        0 <= k < run.len(),
        run[k].action is ConsumeState,
    ensures
        browser_bound(run[0]),
{
    lemma_stage_of_action(run[k]);
    lemma_stage_count(run, k);
    lemma_run_went_on(run, k, 0);
}

/// A login is completed with what it was started with: the code is exchanged with the verifier in
/// the state of the login, and the token has to name the nonce in it.
pub proof fn a_login_is_completed_with_what_it_was_started_with(
    run: Seq<CallbackStep>,
    i: int,
    k: int,
    started: LoginState,
)
    requires
        callback_run(run),
        0 <= i < k < run.len(),
        run[i].stage is DecodingState,
        run[i].event matches CallbackEvent::StateDecoded { started: Some(decoded), .. } && decoded
            == started,
    ensures
        run[k].action matches CallbackAction::Exchange(request) ==> text::pair_views(
            request.form@,
        ).contains(("code_verifier"@, started.verifier@)),
        run[k].stage matches CallbackStage::CheckingEmail { nonce, .. } ==> nonce@
            == started.nonce@,
{
    lemma_stage_of_action(run[k]);
    lemma_stage_count(run, i);
    lemma_stage_count(run, k);
    if run[k].action is Exchange {
        lemma_run_went_on(run, k, i);
        lemma_step_goes_on(run[k]);
    }
    if run[k].stage is CheckingEmail {
        lemma_run_went_on(run, k, 4);
        lemma_run_went_on(run, k, 5);
        lemma_run_went_on(run, k, 6);
        lemma_run_went_on(run, k, 7);
    }
}

/// The browser is handed a session only once the session is stored.
pub proof fn a_session_is_stored_before_it_is_handed_out(run: Seq<CallbackStep>, k: int)
    requires
        callback_run(run),
        0 <= k < run.len(),
        run[k].action matches CallbackAction::Answer(answer) && answer@.status == 302,
    ensures
        k > 0,
        run[k - 1].event == CallbackEvent::SessionStored(true),
{
    lemma_stage_of_action(run[k]);
    lemma_stage_of_action(run[k - 1]);
    assert(run[k].stage == run[k - 1].next);
}

/// A login that was answered is over: nothing is read, written or exchanged for it any more.
pub proof fn an_answered_login_is_over(
    event: CallbackEvent,
    next: CallbackStage,
    action: CallbackAction,
)
    requires
        callback_step(CallbackStage::Answered, event, next, action),
    ensures
        next is Answered,
        action matches CallbackAction::Answer(answer) && answer@ == reply::error_reply(
            500,
            "OIDC login failed"@,
        ),
{
}

/// What was stored when a login was started is what is decoded when the browser comes back, and
/// where that is in its time, the login goes on.
pub proof fn a_started_login_is_recognised(
    cfg: EffectiveConfig,
    code: String,
    stored: String,
    started: LoginState,
    now: i64,
    first: CallbackStep,
    second: CallbackStep,
)
    requires
        stored@ == session::login_state_record(started),
        session::state_in_time(started.created_at, now, cfg.state_ttl),
        first.stage == (CallbackStage::ConsumingState { cfg, code, stored }),
        first.event == CallbackEvent::StateConsumed(true),
        taken(first),
        second.stage == first.next,
        second.event == (CallbackEvent::StateDecoded { started: Some(started), now }),
        taken(second),
    ensures
        first.action matches CallbackAction::DecodeState { payload } && payload@
            == session::login_state_json(started),
        second.next == (CallbackStage::Discovering { cfg, code, started }),
        second.action is Discover,
{
    reveal(taken);
    session::stored_states_are_read_back(started);
}

/// A state that is not stored, because it was consumed, has expired or never was, is refused.
pub proof fn a_consumed_state_is_refused(
    stage: CallbackStage,
    next: CallbackStage,
    action: CallbackAction,
)
    requires
        stage is ReadingState,
        callback_step(stage, CallbackEvent::StateRead(None), next, action),
    ensures
        refuses(next, action, 400, "OIDC state is invalid"@),
{
}

/// What came of the last action lets the login go on: nothing failed, and nothing that is checked
/// here breaks a rule. Of the token it says that it is valid when the step looks at the clock, and
/// that its claims break no rule where the email address is a valid one.
pub open spec fn goes_well(step: CallbackStep) -> bool {
    match (step.stage, step.event) {
        (CallbackStage::Start, CallbackEvent::Request { .. }) => browser_bound(step),
        (CallbackStage::Configuring { .. }, CallbackEvent::Config(Some(_))) => true,
        (CallbackStage::ReadingState { .. }, CallbackEvent::StateRead(Some(_))) => true,
        (
            CallbackStage::ConsumingState { stored, .. },
            CallbackEvent::StateConsumed(true),
        ) => text::without_prefix(stored@, session::OIDC_STATE_SESSION_PREFIX@) is Some,
        (CallbackStage::DecodingState { cfg, .. }, CallbackEvent::StateDecoded { .. }) => {
            state_accepted(step, cfg)
        },
        (
            CallbackStage::Discovering { cfg, .. },
            CallbackEvent::Provider(Some(metadata)),
        ) => config::discovery_fault(cfg, metadata) is None,
        (CallbackStage::Exchanging { .. }, CallbackEvent::IdToken(Some(_))) => true,
        (
            CallbackStage::FetchingKeys { cfg, nonce, id_token },
            CallbackEvent::Keys(Some(jwks)),
        ) => token::key_choice(
            token::jwk_set(jwks@),
            token::token_header(id_token@),
        ) matches Ok(key) && (token::accepted_at(
            cfg,
            id_token@,
            key,
            step.now,
        ) matches Some(claims) && token::identity_fault(cfg, claims, nonce@, true) is None),
        (CallbackStage::CheckingEmail { .. }, CallbackEvent::EmailChecked(true)) => true,
        (
            CallbackStage::ReadingEmailBinding { identity, .. },
            CallbackEvent::BindingRead(Some(_)),
        ) => binding_accepted(step, identity),
        (
            CallbackStage::ReadingSubjectBinding { identity, .. },
            CallbackEvent::BindingRead(Some(_)),
        ) => binding_accepted(step, identity),
        (CallbackStage::WritingEmailBinding { .. }, CallbackEvent::BindingWritten(true)) => true,
        (CallbackStage::WritingSubjectBinding { .. }, CallbackEvent::BindingWritten(true)) => true,
        (CallbackStage::EnsuringOrg { .. }, CallbackEvent::OrgEnsured(true)) => true,
        (CallbackStage::FindingUser { .. }, CallbackEvent::UserFound { .. }) => account_accepted(
            step,
        ),
        (CallbackStage::AdmittingUser { .. }, CallbackEvent::UserAdmitted(true)) => true,
        (CallbackStage::DrawingSession { .. }, CallbackEvent::SessionDrawn { .. }) => true,
        (CallbackStage::StoringSession { .. }, CallbackEvent::SessionStored(true)) => true,
        (CallbackStage::Encoding { .. }, CallbackEvent::Encoded { .. }) => true,
        _ => false,
    }
}

/// A login that passes every check is completed: where everything goes well until the browser is
/// answered, the answer is the one that ends a login, with the session in its cookie and the page
/// after the login as its target. It comes after at most 19 steps.
pub proof fn a_login_that_passes_every_check_is_completed(run: Seq<CallbackStep>)
    requires
        callback_run(run),
        run.len() >= 19,
        forall|i: int|
            0 <= i < run.len() && !((#[trigger] run[i]).stage is Answered) ==> goes_well(run[i]),
    ensures
        exists|k: int| 17 <= k <= 18 && #[trigger] completes(run[k]),
{
    lemma_well_until_keys(run);
    lemma_well_until_user(run);
    lemma_well_step(run[14]);
    assert(run[15].stage == run[14].next);
    lemma_well_step(run[15]);
    assert(run[16].stage == run[15].next);
    lemma_well_step(run[16]);
    assert(run[17].stage == run[16].next);
    if run[15].stage is DrawingSession {
        assert(run[17].stage is Encoding);
        lemma_well_end(run[17]);
    } else {
        lemma_well_step(run[17]);
        assert(run[18].stage == run[17].next);
        assert(run[18].stage is Encoding);
        lemma_well_end(run[18]);
    }
}

/// The step answers the browser with what ends a login.
pub open spec fn completes(step: CallbackStep) -> bool {
    step.stage matches CallbackStage::Encoding { cfg, new_user } && (
    step.event matches CallbackEvent::Encoded { tokens, payload, now, cookies } && (
    step.action matches CallbackAction::Answer(answer) && answer@.status == 302 && answer@
        == landing_reply(cfg, new_user, tokens@, payload@, now, cookies)))
}

/// A step that goes well goes on. Of the two that deal with the token, the first hands its claims
/// to the second, which they let go on.
proof fn lemma_well_step(step: CallbackStep)
    requires
        taken(step),
        goes_well(step),
        !(step.stage is Encoding),
        step.stage matches CallbackStage::CheckingEmail { cfg, nonce, claims }
            ==> token::identity_fault(cfg, claims@, nonce@, true) is None,
    ensures
        !(step.next is Answered),
        steps_to(step.next) == steps_to(step.stage) + 1 || (step.stage is FindingUser
            && step.next is DrawingSession),
        step.stage is FetchingKeys ==> (step.next matches CallbackStage::CheckingEmail {
            cfg,
            nonce,
            claims,
        } && token::identity_fault(cfg, claims@, nonce@, true) is None),
{
    reveal(taken);
}

/// A last step that goes well completes the login.
proof fn lemma_well_end(step: CallbackStep)
    requires
        taken(step),
        goes_well(step),
        step.stage is Encoding,
    ensures
        completes(step),
{
    reveal(taken);
}

proof fn lemma_well_until_keys(run: Seq<CallbackStep>)
    requires
        callback_run(run),
        run.len() >= 19,
        forall|i: int|
            0 <= i < run.len() && !((#[trigger] run[i]).stage is Answered) ==> goes_well(run[i]),
    ensures
        run[7].stage is FetchingKeys,
{
    lemma_well_step(run[0]);
    assert(run[1].stage == run[0].next);
    lemma_well_step(run[1]);
    assert(run[2].stage == run[1].next);
    lemma_well_step(run[2]);
    assert(run[3].stage == run[2].next);
    lemma_well_step(run[3]);
    assert(run[4].stage == run[3].next);
    lemma_well_step(run[4]);
    assert(run[5].stage == run[4].next);
    lemma_well_step(run[5]);
    assert(run[6].stage == run[5].next);
    lemma_well_step(run[6]);
    assert(run[7].stage == run[6].next);
}

proof fn lemma_well_until_user(run: Seq<CallbackStep>)
    requires
        callback_run(run),
        run.len() >= 19,
        forall|i: int|
            0 <= i < run.len() && !((#[trigger] run[i]).stage is Answered) ==> goes_well(run[i]),
        run[7].stage is FetchingKeys,
    ensures
        run[14].stage is FindingUser,
{
    lemma_well_step(run[7]);
    assert(run[8].stage == run[7].next);
    lemma_well_step(run[8]);
    assert(run[9].stage == run[8].next);
    lemma_well_step(run[9]);
    assert(run[10].stage == run[9].next);
    lemma_well_step(run[10]);
    assert(run[11].stage == run[10].next);
    lemma_well_step(run[11]);
    assert(run[12].stage == run[11].next);
    lemma_well_step(run[12]);
    assert(run[13].stage == run[12].next);
    lemma_well_step(run[13]);
    assert(run[14].stage == run[13].next);
}

/// A browser that comes back is let on exactly where the provider did not deny the login, and the
/// code and the state are there, and the cookie holds the same state, whatever the code, the state
/// and the description are. A denial comes before all else, and a code or a state that is missing
/// before a cookie that is another.
pub proof fn a_browser_with_its_state_is_let_on(query: CallbackQuery, cookie: Option<Seq<char>>)
    ensures
        request_fault(query, cookie) is None <==> query.error is None && query.code is Some && (
        query.state matches Some(state) && cookie == Some(state@)),
        query.error is Some ==> request_fault(query, cookie) == Some(RequestFault::Denied),
        query.error is None && (query.code is None || query.state is None) ==> request_fault(
            query,
            cookie,
        ) == Some(RequestFault::Incomplete),
        query.error is None && query.code is Some ==> (query.state matches Some(state) ==> cookie
            != Some(state@) ==> request_fault(query, cookie) == Some(RequestFault::OtherBrowser)),
{
}

/// What a browser is answered where its login does not go on, for whatever failed.
pub proof fn a_login_that_is_refused_is_told_why(
    stage: CallbackStage,
    event: CallbackEvent,
    next: CallbackStage,
    action: CallbackAction,
)
    requires
        callback_step(stage, event, next, action),
    ensures
        stage is Start ==> (event matches CallbackEvent::Request { query, cookie } ==> {
            &&& query.error is Some ==> refuses(next, action, 401, "OIDC login was denied"@)
            &&& query.error is None && (query.code is None || query.state is None) ==> refuses(
                next,
                action,
                400,
                "OIDC callback is missing code or state"@,
            )
            &&& query.error is None && query.code is Some && (query.state matches Some(state)
                && text::text_view(cookie) != Some(state@)) ==> refuses(
                next,
                action,
                400,
                "OIDC state is not bound to this browser"@,
            )
        }),
        stage is Configuring && event == CallbackEvent::Config(None) ==> refuses(
            next,
            action,
            503,
            "OIDC is unavailable"@,
        ),
        stage is ReadingState && event == CallbackEvent::StateRead(None) ==> refuses(
            next,
            action,
            400,
            "OIDC state is invalid"@,
        ),
        stage matches CallbackStage::ConsumingState { stored, .. } ==> event
            == CallbackEvent::StateConsumed(true) && !"oidc-state:"@.is_prefix_of(stored@)
            ==> refuses(next, action, 400, "OIDC state is invalid"@),
        stage is DecodingState ==> (event matches CallbackEvent::StateDecoded {
            started: None,
            ..
        } ==> refuses(next, action, 400, "OIDC state is invalid"@)),
        stage matches CallbackStage::DecodingState { cfg, .. } ==> (
        event matches CallbackEvent::StateDecoded { started: Some(login), now } ==> now
            < login.created_at || now - login.created_at > cfg.state_ttl ==> refuses(
            next,
            action,
            400,
            "OIDC state has expired"@,
        )),
        stage is Discovering && event == CallbackEvent::Provider(None) ==> refuses(
            next,
            action,
            502,
            "OIDC provider is unavailable"@,
        ),
        stage matches CallbackStage::Discovering { cfg, .. } ==> (
        event matches CallbackEvent::Provider(Some(metadata)) ==> metadata.issuer@ != cfg.issuer@
            || !config::usable(metadata.authorization_endpoint@, cfg.insecure_allow_http)
            || !config::usable(metadata.token_endpoint@, cfg.insecure_allow_http)
            || !config::usable(metadata.jwks_uri@, cfg.insecure_allow_http) ==> refuses(
            next,
            action,
            502,
            "OIDC provider is unavailable"@,
        )),
        stage is Exchanging && event == CallbackEvent::IdToken(None) ==> refuses(
            next,
            action,
            401,
            "OIDC login failed"@,
        ),
        stage is FetchingKeys && event == CallbackEvent::Keys(None) ==> refuses(
            next,
            action,
            401,
            "OIDC identity was rejected"@,
        ),
        stage is CheckingEmail && event == CallbackEvent::EmailChecked(false) ==> refuses(
            next,
            action,
            401,
            "OIDC identity was rejected"@,
        ),
        stage is ReadingEmailBinding || stage is ReadingSubjectBinding ==> event
            == CallbackEvent::BindingRead(None) ==> refuses(
            next,
            action,
            401,
            "OIDC identity was rejected"@,
        ),
        stage is WritingEmailBinding || stage is WritingSubjectBinding ==> event
            == CallbackEvent::BindingWritten(false) ==> refuses(
            next,
            action,
            401,
            "OIDC identity was rejected"@,
        ),
        stage is EnsuringOrg && event == CallbackEvent::OrgEnsured(false) ==> refuses(
            next,
            action,
            403,
            "OIDC user is not allowed"@,
        ),
        stage is AdmittingUser && event == CallbackEvent::UserAdmitted(false) ==> refuses(
            next,
            action,
            403,
            "OIDC user is not allowed"@,
        ),
        stage is StoringSession && event == CallbackEvent::SessionStored(false) ==> refuses(
            next,
            action,
            500,
            "OIDC login failed"@,
        ),
{
    if let CallbackStage::Discovering { cfg, .. } = stage {
        if let CallbackEvent::Provider(Some(metadata)) = event {
            config::an_unfit_provider_is_refused(cfg, metadata);
        }
    }
    if let CallbackStage::CheckingEmail { cfg, nonce, claims } = stage {
        token::a_broken_rule_is_never_passed_over(cfg, claims@, nonce@, false);
    }
}

/// An account that has a login of its own, or is a service account anywhere, is not let in, and an
/// identity is not where its email address or its subject is bound to another.
pub proof fn an_account_of_another_is_refused(
    stage: CallbackStage,
    event: CallbackEvent,
    next: CallbackStage,
    action: CallbackAction,
    i: int,
)
    requires
        callback_step(stage, event, next, action),
    ensures
        stage is FindingUser ==> (event matches CallbackEvent::UserFound {
            existing: Some(user),
            ..
        } ==> !user.is_external || (0 <= i < user.organizations@.len()
            && user.organizations@[i].role is ServiceAccount) ==> refuses(
            next,
            action,
            403,
            "OIDC user is not allowed"@,
        )),
        stage matches CallbackStage::ReadingEmailBinding { identity, .. } ==> (
        event matches CallbackEvent::BindingRead(Some(Some(bound))) ==> bound.issuer@
            != identity.issuer@ || bound.subject@ != identity.subject@ || bound.email@
            != identity.email@ ==> refuses(next, action, 401, "OIDC identity was rejected"@)),
        stage matches CallbackStage::ReadingSubjectBinding { identity, .. } ==> (
        event matches CallbackEvent::BindingRead(Some(Some(bound))) ==> bound.issuer@
            != identity.issuer@ || bound.subject@ != identity.subject@ || bound.email@
            != identity.email@ ==> refuses(next, action, 401, "OIDC identity was rejected"@)),
{
    if let CallbackStage::FindingUser { .. } = stage {
        if let CallbackEvent::UserFound { existing: Some(user), .. } = event {
            provision::external_accounts_are_admitted(user, i);
        }
    }
}

/// A login whose identity is not bound to another account, and is bound already or not, goes on from
/// one binding to the other, and writes both under the keys of the identity.
pub proof fn an_identity_is_bound_both_ways(
    stage: CallbackStage,
    event: CallbackEvent,
    next: CallbackStage,
    action: CallbackAction,
)
    requires
        callback_step(stage, event, next, action),
    ensures
        stage matches CallbackStage::ReadingEmailBinding { cfg, identity } ==> (
        event matches CallbackEvent::BindingRead(Some(found)) ==> (found matches Some(bound)
            ==> bound.issuer@ == identity.issuer@ && bound.subject@ == identity.subject@
            && bound.email@ == identity.email@) ==> (action matches CallbackAction::ReadBinding {
            key,
        } && key@ == binding::subject_key_text(identity) && next == (
        CallbackStage::ReadingSubjectBinding { cfg, identity }))),
        stage matches CallbackStage::ReadingSubjectBinding { cfg, identity } ==> (
        event matches CallbackEvent::BindingRead(Some(found)) ==> (found matches Some(bound)
            ==> bound.issuer@ == identity.issuer@ && bound.subject@ == identity.subject@
            && bound.email@ == identity.email@) ==> (action matches CallbackAction::WriteBinding {
            key,
            value,
        } && key@ == binding::email_key_text(identity) && value@ == binding::binding_json(
            binding::binding_of(identity),
        ) && next == (CallbackStage::WritingEmailBinding { cfg, identity }))),
        stage matches CallbackStage::WritingEmailBinding { cfg, identity } ==> event
            == CallbackEvent::BindingWritten(true) ==> (
        action matches CallbackAction::WriteBinding { key, value } && key@
            == binding::subject_key_text(identity) && value@ == binding::binding_json(
            binding::binding_of(identity),
        ) && next == (CallbackStage::WritingSubjectBinding { cfg, identity })),
{
}

/// A state is taken to the last second of its lifetime, however late that is.
pub proof fn a_state_in_its_time_is_taken(
    cfg: EffectiveConfig,
    code: String,
    login: LoginState,
    now: i64,
    next: CallbackStage,
    action: CallbackAction,
)
    requires
        callback_step(
            CallbackStage::DecodingState { cfg, code },
            CallbackEvent::StateDecoded { started: Some(login), now },
            next,
            action,
        ),
    ensures
        login.created_at <= now && now - login.created_at <= cfg.state_ttl <==> next == (
        CallbackStage::Discovering { cfg, code, started: login }),
        action is Discover <==> login.created_at <= now && now - login.created_at <= cfg.state_ttl,
{
}

/// The session of an identity is stored under the name that was drawn, as a session of the version
/// 1 with the issuer, the subject and the email address of the identity, until its lifetime after
/// now has passed.
pub proof fn a_session_is_stored_for_its_lifetime(
    cfg: EffectiveConfig,
    identity: Identity,
    new_user: bool,
    drawn: String,
    now: i64,
    next: CallbackStage,
    action: CallbackAction,
)
    requires
        callback_step(
            CallbackStage::DrawingSession { cfg, identity, new_user },
            CallbackEvent::SessionDrawn { id: drawn, now },
            next,
            action,
        ),
    ensures
        action matches CallbackAction::StoreSession { id, value, expires_at } && id@ == drawn@
            && expires_at - now == cfg.session_max_age && value@ == "oidc:{\"version\":"@
            + text::decimal(1) + ",\"issuer\":"@ + json::json_string(identity.issuer@)
            + ",\"subject\":"@ + json::json_string(identity.subject@) + ",\"email\":"@
            + json::json_string(identity.email@) + "}"@,
{
    session::records_hold_every_field(
        LoginState { verifier: drawn, nonce: drawn, created_at: now },
        OidcSession {
            version: SESSION_VERSION,
            issuer: identity.issuer,
            subject: identity.subject,
            email: identity.email,
        },
    );
}

/// The web interface is told of the user what the provider says, and that the token is valid.
pub proof fn the_web_interface_is_told_of_the_user(identity: Identity)
    ensures
        frontend_claims(identity).get("sub"@) == Some(JsonView::Text(identity.subject@)),
        frontend_claims(identity).get("email"@) == Some(JsonView::Text(identity.email@)),
        frontend_claims(identity).get("name"@) == Some(JsonView::Text(identity.name@)),
        frontend_claims(identity).get("given_name"@) == Some(JsonView::Text(identity.given_name@)),
        frontend_claims(identity).get("family_name"@) == Some(
            JsonView::Text(identity.family_name@),
        ),
        frontend_claims(identity).get("is_valid"@) == Some(JsonView::Bool(true)),
        frontend_claims(identity) matches JsonView::Object(fields) && fields.len() == 6,
{
    reveal_strlit("sub");
    reveal_strlit("email");
    reveal_strlit("name");
    reveal_strlit("given_name");
    reveal_strlit("family_name");
    reveal_strlit("is_valid");
    assert("sub"@.len() == 3 && "email"@.len() == 5 && "name"@.len() == 4);
    assert("given_name"@.len() == 10 && "family_name"@.len() == 11 && "is_valid"@.len() == 8);
    let fields = frontend_claims(identity)->Object_0;
    reveal_with_fuel(json::field_position_from, 7);
    assert(fields[0].0 == "sub"@ && fields[1].0 == "email"@ && fields[2].0 == "name"@);
    assert(fields[3].0 == "given_name"@ && fields[4].0 == "family_name"@ && fields[5].0
        == "is_valid"@);
}

/// The browser lands on the configured page, with what it is told in the fragment: behind the `#`
/// that the page has, or else behind a new one.
pub proof fn the_browser_lands_with_its_token_in_the_fragment(
    cfg: EffectiveConfig,
    payload: Seq<char>,
)
    ensures
        (forall|i: int|
            0 <= i < cfg.post_login_url@.len() ==> #[trigger] cfg.post_login_url@[i] != '#')
            ==> landing(cfg, payload, true) == cfg.post_login_url@
            + "#id_token=eyJhbGciOiJub25lIiwidHlwIjoiSldUIn0."@ + payload + ".&new_user_login=true"@
            && landing(cfg, payload, false) == cfg.post_login_url@
            + "#id_token=eyJhbGciOiJub25lIiwidHlwIjoiSldUIn0."@ + payload
            + ".&new_user_login=false"@,
        (exists|i: int|
            0 <= i < cfg.post_login_url@.len() && #[trigger] cfg.post_login_url@[i] == '#')
            ==> landing(cfg, payload, true) == cfg.post_login_url@
            + "&id_token=eyJhbGciOiJub25lIiwidHlwIjoiSldUIn0."@ + payload + ".&new_user_login=true"@
            && landing(cfg, payload, false) == cfg.post_login_url@
            + "&id_token=eyJhbGciOiJub25lIiwidHlwIjoiSldUIn0."@ + payload
            + ".&new_user_login=false"@,
{
    reveal_strlit("#");
    reveal_strlit("&");
    reveal_strlit(".");
    reveal_strlit("true");
    reveal_strlit("false");
    reveal_strlit("id_token=");
    reveal_strlit("&new_user_login=");
    reveal_strlit("eyJhbGciOiJub25lIiwidHlwIjoiSldUIn0");
    reveal_strlit("#id_token=eyJhbGciOiJub25lIiwidHlwIjoiSldUIn0.");
    reveal_strlit("&id_token=eyJhbGciOiJub25lIiwidHlwIjoiSldUIn0.");
    reveal_strlit(".&new_user_login=true");
    reveal_strlit(".&new_user_login=false");
    let page = cfg.post_login_url@;
    let header = FRONTEND_JWT_HEADER@;
    assert("#"@ + "id_token="@ + header + "."@
        =~= "#id_token=eyJhbGciOiJub25lIiwidHlwIjoiSldUIn0."@);
    assert("&"@ + "id_token="@ + header + "."@
        =~= "&id_token=eyJhbGciOiJub25lIiwidHlwIjoiSldUIn0."@);
    assert("."@ + "&new_user_login="@ + "true"@ =~= ".&new_user_login=true"@);
    assert("."@ + "&new_user_login="@ + "false"@ =~= ".&new_user_login=false"@);
    let mark = if page.contains('#') {
        "&"@
    } else {
        "#"@
    };
    assert(landing(cfg, payload, true) =~= page + (mark + "id_token="@ + header + "."@) + payload + (
    "."@ + "&new_user_login="@ + "true"@));
    assert(landing(cfg, payload, false) =~= page + (mark + "id_token="@ + header + "."@) + payload
        + ("."@ + "&new_user_login="@ + "false"@));
    if exists|i: int| 0 <= i < page.len() && #[trigger] page[i] == '#' {
        assert(page.contains('#'));
    }
}

/// The answer that ends a login sends the browser on, with the session in a cookie for its lifetime
/// and with the cookie of the state taken back.
pub proof fn the_browser_is_sent_on_with_its_session(
    cfg: EffectiveConfig,
    new_user: bool,
    tokens: Seq<char>,
    payload: Seq<char>,
    now: i64,
    cookies: CookieSettings,
)
    ensures
        landing_reply(cfg, new_user, tokens, payload, now, cookies).status == 302,
        landing_reply(cfg, new_user, tokens, payload, now, cookies).body.len() == 0,
        landing_reply(cfg, new_user, tokens, payload, now, cookies).headers.len() == 3,
        landing_reply(cfg, new_user, tokens, payload, now, cookies).headers.contains(
            ("location"@, landing(cfg, payload, new_user)),
        ),
        landing_reply(cfg, new_user, tokens, payload, now, cookies).headers.contains(
            (
                "set-cookie"@,
                reply::cookie_text(
                    reply::session_cookie(tokens, cfg.session_max_age as int, now as int, cookies),
                ),
            ),
        ),
        landing_reply(cfg, new_user, tokens, payload, now, cookies).headers.contains(
            ("set-cookie"@, reply::cookie_text(reply::unbound_cookie(cookies.secure_only))),
        ),
{
    let headers = landing_reply(cfg, new_user, tokens, payload, now, cookies).headers;
    assert(headers[0] == ("location"@, landing(cfg, payload, new_user)));
    assert(headers[1].0 == "set-cookie"@);
    assert(headers[2] == (
        "set-cookie"@,
        reply::cookie_text(reply::unbound_cookie(cookies.secure_only)),
    ));
}

/// Whether a user is new is found out once and told to the browser: where there was no user with the
/// email address, and only there, the page that it lands on says so.
pub proof fn the_browser_is_told_whether_the_user_is_new(
    stage: CallbackStage,
    event: CallbackEvent,
    next: CallbackStage,
    action: CallbackAction,
)
    requires
        callback_step(stage, event, next, action),
    ensures
        stage is FindingUser ==> (event matches CallbackEvent::UserFound { existing, .. } ==> (
        next matches CallbackStage::AdmittingUser { new_user, .. } ==> (new_user
            <==> existing is None)) && (next matches CallbackStage::DrawingSession { new_user, .. }
            ==> !new_user && existing is Some)),
        stage matches CallbackStage::AdmittingUser { new_user, .. } ==> (
        next matches CallbackStage::DrawingSession { new_user: kept, .. } ==> kept == new_user),
        stage matches CallbackStage::DrawingSession { new_user, .. } ==> (
        next matches CallbackStage::StoringSession { new_user: kept, .. } ==> kept == new_user),
        stage matches CallbackStage::StoringSession { new_user, .. } ==> (
        next matches CallbackStage::Encoding { new_user: kept, .. } ==> kept == new_user),
        stage matches CallbackStage::Encoding { cfg, new_user } ==> (
        event matches CallbackEvent::Encoded { payload, .. } ==> (
        action matches CallbackAction::Answer(answer) && answer@.headers.contains(
            ("location"@, landing(cfg, payload@, new_user)),
        ))),
{
    if let CallbackStage::Encoding { cfg, new_user } = stage {
        if let CallbackEvent::Encoded { tokens, payload, now, cookies } = event {
            the_browser_is_sent_on_with_its_session(
                cfg,
                new_user,
                tokens@,
                payload@,
                now,
                cookies,
            );
        }
    }
}

/// A user is admitted by what is missing: one that is not there is created, one outside the default
/// organization joins it, a member that is no administrator of it becomes one, and an
/// administrator gets a session at once.
pub proof fn a_user_is_admitted_by_what_is_missing(
    cfg: EffectiveConfig,
    identity: Identity,
    existing: Option<ExistingUser>,
    token: String,
    rum_token: String,
    next: CallbackStage,
    action: CallbackAction,
    i: int,
)
    requires
        callback_step(
            CallbackStage::FindingUser { cfg, identity },
            CallbackEvent::UserFound { existing, token, rum_token },
            next,
            action,
        ),
    ensures
        existing is None ==> (action matches CallbackAction::CreateUser(user) && user.email@
            == identity.email@),
        existing matches Some(user) ==> user.is_external && (forall|k: int|
            0 <= k < user.organizations@.len() ==> !((
            #[trigger] user.organizations@[k]).role is ServiceAccount)) ==> {
            &&& 0 <= i < user.organizations@.len() && user.organizations@[i].name@
                == cfg.default_org@ && user.organizations@[i].role is Admin ==> action is DrawSession
            &&& 0 <= i < user.organizations@.len() && user.organizations@[i].name@
                == cfg.default_org@ && (forall|k: int|
                0 <= k < user.organizations@.len() && (#[trigger] user.organizations@[k]).name@
                    == cfg.default_org@ ==> !(user.organizations@[k].role is Admin)) ==> (
            action matches CallbackAction::ChangeRole(change) && change.org@ == cfg.default_org@
                && change.email@ == identity.email@ && change.role is Admin)
            &&& (forall|k: int|
                0 <= k < user.organizations@.len() ==> (#[trigger] user.organizations@[k]).name@
                    != cfg.default_org@) ==> (action matches CallbackAction::AddMember(member)
                && member.org@ == cfg.default_org@ && member.email@ == identity.email@
                && member.role is Admin && member.token@ == token@)
        },
{
}

/// From one thing that is done to the next, a login keeps what it is about: the state that it reads
/// is the one that it deletes, the code that it exchanges is the one that it came with, the keys are
/// fetched from where the provider keeps them, and the email address that is checked and looked up
/// is the one of the claims and of the identity.
pub proof fn a_login_keeps_what_it_is_about(
    stage: CallbackStage,
    event: CallbackEvent,
    next: CallbackStage,
    action: CallbackAction,
)
    requires
        callback_step(stage, event, next, action),
    ensures
        stage matches CallbackStage::Configuring { code, state } ==> (
        event matches CallbackEvent::Config(Some(cfg)) ==> (
        action matches CallbackAction::ReadState { id } && id@ == "oidc-state-"@ + state@ && (
        next matches CallbackStage::ReadingState { cfg: kept, code: same, state_id } && kept == cfg
            && same == code && state_id@ == id@))),
        stage matches CallbackStage::ReadingState { state_id, .. } ==> (
        event matches CallbackEvent::StateRead(Some(_)) ==> (
        action matches CallbackAction::ConsumeState { id } && id@ == state_id@)),
        stage matches CallbackStage::Discovering { code, started, .. } ==> (
        event matches CallbackEvent::Provider(Some(metadata)) ==> (
        action matches CallbackAction::Exchange(request) ==> request.endpoint@
            == metadata.token_endpoint@ && text::pair_views(request.form@).contains(
            ("code"@, code@),
        ) && text::pair_views(request.form@).contains(
            ("code_verifier"@, started.verifier@),
        ) && (next matches CallbackStage::Exchanging { nonce, jwks_uri, .. } && nonce@
            == started.nonce@ && jwks_uri@ == metadata.jwks_uri@))),
        stage matches CallbackStage::Exchanging { jwks_uri, nonce, .. } ==> (
        event matches CallbackEvent::IdToken(Some(token)) ==> (
        action matches CallbackAction::FetchKeys { url } && url@ == jwks_uri@ && (
        next matches CallbackStage::FetchingKeys { id_token, nonce: same, .. } && id_token@
            == token@ && same@ == nonce@))),
        stage matches CallbackStage::WritingSubjectBinding { cfg, .. } ==> event
            == CallbackEvent::BindingWritten(true) ==> (action matches CallbackAction::EnsureOrg {
            org,
        } && org@ == cfg.default_org@),
        stage matches CallbackStage::EnsuringOrg { identity, .. } ==> event
            == CallbackEvent::OrgEnsured(true) ==> (action matches CallbackAction::FindUser {
            email,
        } && email@ == identity.email@),
        stage is AdmittingUser && event == CallbackEvent::UserAdmitted(true) ==> action
            is DrawSession,
        stage matches CallbackStage::StoringSession { identity, session_id, .. } ==> event
            == CallbackEvent::SessionStored(true) ==> (action matches CallbackAction::Encode {
            tokens,
            payload,
        } && tokens@ == reply::auth_tokens_json(session_id@) && json::json_text(
            frontend_claims(identity),
        ) == Some(payload@)),
{
    if let CallbackStage::Discovering { cfg, code, started } = stage {
        if let CallbackEvent::Provider(Some(metadata)) = event {
            if let CallbackAction::Exchange(request) = action {
                token::an_exchange_carries_code_and_verifier(
                    request,
                    cfg,
                    metadata,
                    code@,
                    started.verifier@,
                );
            }
        }
    }
}

/// What does not belong to the stage that a login is in ends it.
pub proof fn what_comes_out_of_place_ends_a_login(
    stage: CallbackStage,
    event: CallbackEvent,
    next: CallbackStage,
    action: CallbackAction,
)
    requires
        callback_step(stage, event, next, action),
        !(stage is Start && event is Request),
        !(stage is Configuring && event is Config),
        !(stage is ReadingState && event is StateRead),
        !(stage is ConsumingState && event is StateConsumed),
        !(stage is DecodingState && event is StateDecoded),
        !(stage is Discovering && event is Provider),
        !(stage is Exchanging && event is IdToken),
        !(stage is FetchingKeys && event is Keys),
        !(stage is CheckingEmail && event is EmailChecked),
        !((stage is ReadingEmailBinding || stage is ReadingSubjectBinding) && event is BindingRead),
        !((stage is WritingEmailBinding || stage is WritingSubjectBinding)
            && event is BindingWritten),
        !(stage is EnsuringOrg && event is OrgEnsured),
        !(stage is FindingUser && event is UserFound),
        !(stage is AdmittingUser && event is UserAdmitted),
        !(stage is DrawingSession && event is SessionDrawn),
        !(stage is StoringSession && event is SessionStored),
        !(stage is Encoding && event is Encoded),
    ensures
        refuses(next, action, 500, "OIDC login failed"@),
{
}

/// A token that no key verifies, or that is valid at no time, is refused, and so is one whose claims
/// break a rule. Where the claims are accepted, the login goes on to the binding of the email
/// address that they name.
pub proof fn a_token_that_is_not_valid_is_refused(
    stage: CallbackStage,
    event: CallbackEvent,
    next: CallbackStage,
    action: CallbackAction,
)
    requires
        callback_step(stage, event, next, action),
    ensures
        stage matches CallbackStage::FetchingKeys { cfg, id_token, .. } ==> (
        event matches CallbackEvent::Keys(Some(jwks)) ==> (match token::key_choice(
            token::jwk_set(jwks@),
            token::token_header(id_token@),
        ) {
            Ok(key) => forall|now: int|
                (#[trigger] token::accepted_at(cfg, id_token@, key, now)) is None,
            Err(_) => true,
        }) ==> refuses(next, action, 401, "OIDC identity was rejected"@)),
        stage matches CallbackStage::FetchingKeys { .. } ==> (event is Keys ==> (
        next matches CallbackStage::CheckingEmail { claims, .. } ==> (
        action matches CallbackAction::CheckEmail { email } && email@ == token::email_claim(
            claims@,
        )))),
        stage matches CallbackStage::CheckingEmail { cfg, nonce, claims } ==> (
        event matches CallbackEvent::EmailChecked(valid) ==> token::identity_fault(
            cfg,
            claims@,
            nonce@,
            valid,
        ) is Some ==> refuses(next, action, 401, "OIDC identity was rejected"@)),
        stage matches CallbackStage::CheckingEmail { cfg, nonce, claims } ==> (
        event matches CallbackEvent::EmailChecked(valid) ==> token::identity_fault(
            cfg,
            claims@,
            nonce@,
            valid,
        ) is None ==> (next matches CallbackStage::ReadingEmailBinding { identity, .. }
            && identity.email@ == token::email_claim(claims@) && (
        action matches CallbackAction::ReadBinding { key } && key@ == binding::email_key_text(
            identity,
        )))),
{
}

} // verus!
