//! The start of a login: authorization code with PKCE, a nonce, and one-time state.
//!
//! [`login`] decides what is done next. Whoever runs it does that, and hands back what came of it.

use crate::digest;
use crate::json;
use crate::oidc::config;
use crate::oidc::config::{EffectiveConfig, ProviderMetadata};
use crate::oidc::reply;
use crate::oidc::reply::Reply;
use crate::oidc::session;
use crate::oidc::session::LoginState;
use crate::text;
use vstd::prelude::*;
use vstd::string::*;

verus! {

/// How many random characters a PKCE verifier has.
pub const VERIFIER_LENGTH: usize = 64;

/// How many random characters the state of a login has.
pub const STATE_LENGTH: usize = 48;

/// How many random characters a nonce has.
pub const NONCE_LENGTH: usize = 48;

/// What has been done of a login.
#[derive(Debug)]
pub enum LoginStage {
    /// Nothing.
    Start,
    /// The provider is asked what it says of itself.
    Discovering { cfg: EffectiveConfig, secure_cookies: bool },
    /// The random texts are drawn.
    Drawing { cfg: EffectiveConfig, secure_cookies: bool, endpoint: String },
    /// The state of the login is stored.
    Storing {
        cfg: EffectiveConfig,
        secure_cookies: bool,
        endpoint: String,
        state: String,
        started: LoginState,
    },
    /// The browser was answered.
    Answered,
}

/// What came of an action.
#[derive(Debug)]
pub enum LoginEvent {
    /// The configuration that is in force; `None` where there is none. `secure_cookies` says
    /// whether cookies are sent over secure connections only.
    Config { cfg: Option<EffectiveConfig>, secure_cookies: bool },
    /// What the provider says of itself; `None` where it did not answer.
    Provider(Option<ProviderMetadata>),
    /// Random texts of [`VERIFIER_LENGTH`], [`STATE_LENGTH`] and [`NONCE_LENGTH`] characters, and
    /// the time in seconds since the start of 1970.
    Drawn { verifier: String, state: String, nonce: String, now: i64 },
    /// Whether the state of the login was stored.
    Stored(bool),
}

/// What is to be done next.
#[derive(Debug)]
pub enum LoginAction {
    /// Ask the provider, at that URL, what it says of itself.
    Discover { url: String },
    /// Draw the random texts, and look at the clock.
    Draw,
    /// Store the value under the name until the time.
    Store { id: String, value: String, expires_at: i64 },
    /// Answer the browser.
    Answer(Reply),
}

impl LoginStage {
    /// The configuration is one that can be in force.
    pub open spec fn well_formed(self) -> bool {
        match self {
            LoginStage::Discovering { cfg, .. } => cfg.well_formed(),
            LoginStage::Drawing { cfg, .. } => cfg.well_formed(),
            LoginStage::Storing { cfg, .. } => cfg.well_formed(),
            _ => true,
        }
    }
}

impl LoginEvent {
    /// The configuration is one that can be in force, and the time is not at the end of all times.
    pub open spec fn well_formed(self) -> bool {
        match self {
            LoginEvent::Config { cfg: Some(cfg), .. } => cfg.well_formed(),
            LoginEvent::Drawn { now, .. } => now <= i64::MAX - 900,
            _ => true,
        }
    }
}

// ---------------------------------------------------------------------------------------------
// The authorization URL
// ---------------------------------------------------------------------------------------------

/// A URL with pairs appended to its query; `None` where the text is no URL.
pub uninterp spec fn url_with_query(
    base: Seq<char>,
    pairs: Seq<(Seq<char>, Seq<char>)>,
) -> Option<Seq<char>>;

/// `url::Url::parse`, `Url::query_pairs_mut` with `append_pair`, and the text of the `Url`: the
/// URL with the pairs appended to its query, in their order. There is one exactly where the text
/// can be parsed.
#[verifier::external_body]
fn append_query(base: &str, pairs: &Vec<(String, String)>) -> (url: Option<String>)
    ensures
        text::text_view(url) == url_with_query(base@, text::pair_views(pairs@)),
        url is Some <==> config::url_parts(base@) is Ok,
{
    let mut url = url::Url::parse(base).ok()?;
    url.query_pairs_mut().extend_pairs(pairs);
    Some(url.to_string())
}

/// What the provider is told of a login. Of the verifier it is told the challenge alone.
pub open spec fn authorization_pairs(
    cfg: EffectiveConfig,
    state: Seq<char>,
    nonce: Seq<char>,
    verifier: Seq<char>,
) -> Seq<(Seq<char>, Seq<char>)> {
    seq![
        ("response_type"@, "code"@),
        ("client_id"@, cfg.client_id@),
        ("redirect_uri"@, cfg.redirect_url@),
        ("scope"@, cfg.scopes@),
        ("state"@, state),
        ("nonce"@, nonce),
        ("code_challenge"@, digest::digest_text(verifier)),
        ("code_challenge_method"@, "S256"@),
    ]
}

/// What the provider is told of a login.
pub fn authorization_query(cfg: &EffectiveConfig, state: &str, started: &LoginState) -> (pairs: Vec<
    (String, String),
>)
    ensures
        text::pair_views(pairs@) == authorization_pairs(
            *cfg,
            state@,
            started.nonce@,
            started.verifier@,
        ),
{
    let mut pairs: Vec<(String, String)> = Vec::new();
    pairs.push(("response_type".to_owned(), "code".to_owned()));
    pairs.push(("client_id".to_owned(), cfg.client_id.clone()));
    pairs.push(("redirect_uri".to_owned(), cfg.redirect_url.clone()));
    pairs.push(("scope".to_owned(), cfg.scopes.clone()));
    pairs.push(("state".to_owned(), state.to_owned()));
    pairs.push(("nonce".to_owned(), started.nonce.clone()));
    pairs.push(
        ("code_challenge".to_owned(), digest::pkce_challenge(started.verifier.as_str())),
    );
    pairs.push(("code_challenge_method".to_owned(), "S256".to_owned()));
    assert(text::pair_views(pairs@) =~= authorization_pairs(
        *cfg,
        state@,
        started.nonce@,
        started.verifier@,
    ));
    pairs
}

/// The answer that sends the browser to the provider: the URL as JSON, and the cookie that binds
/// the login to the browser.
pub open spec fn login_reply(
    url: Seq<char>,
    state: Seq<char>,
    state_ttl: i64,
    secure_cookies: bool,
) -> reply::ReplyView {
    reply::ReplyView {
        status: 200,
        headers: seq![
            ("content-type"@, "application/json"@),
            (
                "set-cookie"@,
                reply::cookie_text(reply::bound_cookie(state, state_ttl as int, secure_cookies)),
            ),
        ],
        body: json::json_string(url),
    }
}

/// The answer that sends the browser to the provider.
pub fn login_response(url: &str, state: &str, state_ttl: i64, secure_cookies: bool) -> (answer: Reply)
    ensures
        answer@ == login_reply(url@, state@, state_ttl, secure_cookies),
{
    let mut headers: Vec<(String, String)> = Vec::new();
    headers.push(("content-type".to_owned(), "application/json".to_owned()));
    headers.push(
        (
            "set-cookie".to_owned(),
            reply::cookie_header(&reply::state_cookie(state, state_ttl, secure_cookies)),
        ),
    );
    let answer: Reply = Reply { status: 200, headers, body: json::quoted(url) };
    assert(answer@.headers =~= login_reply(url@, state@, state_ttl, secure_cookies).headers);
    answer
}

// ---------------------------------------------------------------------------------------------
// The decisions
// ---------------------------------------------------------------------------------------------

/// The browser is answered that something went wrong.
pub open spec fn refuses(
    next: LoginStage,
    action: LoginAction,
    status: u16,
    message: Seq<char>,
) -> bool {
    next is Answered && (action matches LoginAction::Answer(answer) && answer@
        == reply::error_reply(status, message))
}

/// From a stage, an event leads to the next stage and action.
pub open spec fn login_step(
    stage: LoginStage,
    event: LoginEvent,
    next: LoginStage,
    action: LoginAction,
) -> bool {
    match (stage, event) {
        (LoginStage::Start, LoginEvent::Config { cfg: Some(cfg), secure_cookies }) => {
            &&& next == (LoginStage::Discovering { cfg, secure_cookies })
            &&& action matches LoginAction::Discover { url } && url@ == config::discovery_target(
                cfg,
            )
        },
        (LoginStage::Start, LoginEvent::Config { cfg: None, .. }) => refuses(
            next,
            action,
            503,
            "OIDC is unavailable"@,
        ),
        (
            LoginStage::Discovering { cfg, secure_cookies },
            LoginEvent::Provider(Some(metadata)),
        ) => if config::discovery_fault(cfg, metadata) is None {
            &&& next == (LoginStage::Drawing {
                cfg,
                secure_cookies,
                endpoint: metadata.authorization_endpoint,
            })
            &&& action is Draw
        } else {
            refuses(next, action, 502, "OIDC provider is unavailable"@)
        },
        (LoginStage::Discovering { .. }, LoginEvent::Provider(None)) => refuses(
            next,
            action,
            502,
            "OIDC provider is unavailable"@,
        ),
        (
            LoginStage::Drawing { cfg, secure_cookies, endpoint },
            LoginEvent::Drawn { verifier, state, nonce, now },
        ) => {
            let started = LoginState { verifier, nonce, created_at: now };
            &&& next == (LoginStage::Storing { cfg, secure_cookies, endpoint, state, started })
            &&& action matches LoginAction::Store { id, value, expires_at } && id@
                == session::state_id(state@) && value@ == session::login_state_record(started)
                && expires_at == now + cfg.state_ttl
        },
        (
            LoginStage::Storing { cfg, secure_cookies, endpoint, state, started },
            LoginEvent::Stored(true),
        ) => match url_with_query(
            endpoint@,
            authorization_pairs(cfg, state@, started.nonce@, started.verifier@),
        ) {
            Some(url) => {
                &&& next is Answered
                &&& action matches LoginAction::Answer(answer) && answer@ == login_reply(
                    url,
                    state@,
                    cfg.state_ttl,
                    secure_cookies,
                )
            },
            None => refuses(next, action, 502, "OIDC provider is unavailable"@),
        },
        _ => refuses(next, action, 500, "OIDC login failed"@),
    }
}

fn refuse(status: u16, message: &str) -> (step: (LoginStage, LoginAction))
    ensures
        refuses(step.0, step.1, status, message@),
{
    (LoginStage::Answered, LoginAction::Answer(reply::error_response(status, message)))
}

/// What is done next to start a login, and the stage that it then is in.
pub fn login(stage: LoginStage, event: LoginEvent) -> (step: (LoginStage, LoginAction))
    requires
        stage.well_formed(),
        event.well_formed(),
    ensures
        login_step(stage, event, step.0, step.1),
        step.0.well_formed(),
        // Once the state is stored, the browser is sent to the endpoint wherever that is a URL.
        stage matches LoginStage::Storing { endpoint, .. } ==> event == LoginEvent::Stored(true)
            ==> config::url_parts(endpoint@) is Ok ==> (step.1 matches LoginAction::Answer(
            answer,
        ) && answer@.status == 200),
{
    match (stage, event) {
        (LoginStage::Start, LoginEvent::Config { cfg: Some(cfg), secure_cookies }) => {
            let url: String = config::discovery_url(&cfg);
            (LoginStage::Discovering { cfg, secure_cookies }, LoginAction::Discover { url })
        },
        (LoginStage::Start, LoginEvent::Config { cfg: None, secure_cookies: _ }) => refuse(
            503,
            "OIDC is unavailable",
        ),
        (
            LoginStage::Discovering { cfg, secure_cookies },
            LoginEvent::Provider(Some(metadata)),
        ) => match config::discover(&cfg, metadata) {
            Ok(metadata) => (
                LoginStage::Drawing {
                    cfg,
                    secure_cookies,
                    endpoint: metadata.authorization_endpoint,
                },
                LoginAction::Draw,
            ),
            Err(_) => refuse(502, "OIDC provider is unavailable"),
        },
        (
            LoginStage::Discovering { cfg: _, secure_cookies: _ },
            LoginEvent::Provider(None),
        ) => refuse(502, "OIDC provider is unavailable"),
        (
            LoginStage::Drawing { cfg, secure_cookies, endpoint },
            LoginEvent::Drawn { verifier, state, nonce, now },
        ) => {
            let started: LoginState = LoginState { verifier, nonce, created_at: now };
            let id: String = session::state_session_id(state.as_str());
            let value: String = session::login_state_value(&started);
            let expires_at: i64 = now + cfg.state_ttl;
            (
                LoginStage::Storing { cfg, secure_cookies, endpoint, state, started },
                LoginAction::Store { id, value, expires_at },
            )
        },
        (
            LoginStage::Storing { cfg, secure_cookies, endpoint, state, started },
            LoginEvent::Stored(true),
        ) => match append_query(
            endpoint.as_str(),
            &authorization_query(&cfg, state.as_str(), &started),
        ) {
            Some(url) => (
                LoginStage::Answered,
                LoginAction::Answer(
                    login_response(url.as_str(), state.as_str(), cfg.state_ttl, secure_cookies),
                ),
            ),
            None => refuse(502, "OIDC provider is unavailable"),
        },
        _ => refuse(500, "OIDC login failed"),
    }
}

// ---------------------------------------------------------------------------------------------
// Laws
// ---------------------------------------------------------------------------------------------

/// The browser is sent to the provider only once the state of the login is stored.
pub proof fn a_login_is_stored_before_it_is_answered(
    stage: LoginStage,
    event: LoginEvent,
    next: LoginStage,
    action: LoginAction,
)
    requires
        login_step(stage, event, next, action),
        action matches LoginAction::Answer(answer) && answer@.status == 200,
    ensures
        stage is Storing,
        event == LoginEvent::Stored(true),
{
}

/// What is stored of a login is what the provider is told of it: the stored record has the nonce
/// that the provider is told, and the verifier of the challenge that the provider is told. It is
/// stored under the state that the provider and the browser are given.
pub proof fn what_is_stored_is_what_the_provider_is_told(
    drawing: LoginStage,
    drawn: LoginEvent,
    storing: LoginStage,
    store: LoginAction,
    answered: LoginStage,
    answer: LoginAction,
)
    requires
        drawing is Drawing,
        drawn is Drawn,
        login_step(drawing, drawn, storing, store),
        login_step(storing, LoginEvent::Stored(true), answered, answer),
        answer matches LoginAction::Answer(reply) && reply@.status == 200,
    ensures
        exists|state: String, started: LoginState| #[trigger]
            told(drawing, state, started, answer) && stored_under(store, state, started),
{
    match (drawing, drawn) {
        (
            LoginStage::Drawing { cfg, secure_cookies, endpoint },
            LoginEvent::Drawn { verifier, state, nonce, now },
        ) => {
            let started = LoginState { verifier, nonce, created_at: now };
            assert(told(drawing, state, started, answer) && stored_under(store, state, started));
        },
        _ => {},
    }
}

/// The browser is answered with the URL that tells the provider of the login, and with the cookie
/// that holds the state.
pub open spec fn told(
    drawing: LoginStage,
    state: String,
    started: LoginState,
    action: LoginAction,
) -> bool {
    drawing matches LoginStage::Drawing { cfg, secure_cookies, endpoint } && (url_with_query(
        endpoint@,
        authorization_pairs(cfg, state@, started.nonce@, started.verifier@),
    ) matches Some(url) && (action matches LoginAction::Answer(answer) && answer@ == login_reply(
        url,
        state@,
        cfg.state_ttl,
        secure_cookies,
    )))
}

/// The record of the login is stored under its state.
pub open spec fn stored_under(action: LoginAction, state: String, started: LoginState) -> bool {
    action matches LoginAction::Store { id, value, .. } && id@ == session::state_id(state@)
        && value@ == session::login_state_record(started)
}

/// The provider is told what it needs and nothing secret: the code flow, who asks, where to come
/// back to, the scopes, the state, the nonce, and of the verifier its SHA-256 challenge alone.
pub proof fn the_provider_is_told_of_the_login(
    cfg: EffectiveConfig,
    state: Seq<char>,
    nonce: Seq<char>,
    verifier: Seq<char>,
)
    ensures
        authorization_pairs(cfg, state, nonce, verifier).len() == 8,
        authorization_pairs(cfg, state, nonce, verifier).contains(("response_type"@, "code"@)),
        authorization_pairs(cfg, state, nonce, verifier).contains(
            ("client_id"@, cfg.client_id@),
        ),
        authorization_pairs(cfg, state, nonce, verifier).contains(
            ("redirect_uri"@, cfg.redirect_url@),
        ),
        authorization_pairs(cfg, state, nonce, verifier).contains(("scope"@, cfg.scopes@)),
        authorization_pairs(cfg, state, nonce, verifier).contains(("state"@, state)),
        authorization_pairs(cfg, state, nonce, verifier).contains(("nonce"@, nonce)),
        authorization_pairs(cfg, state, nonce, verifier).contains(
            (
                "code_challenge"@,
                digest::base64_url(digest::sha256(vstd::utf8::encode_utf8(verifier))),
            ),
        ),
        authorization_pairs(cfg, state, nonce, verifier).contains(
            ("code_challenge_method"@, "S256"@),
        ),
{
    let pairs = authorization_pairs(cfg, state, nonce, verifier);
    assert(pairs[0] == ("response_type"@, "code"@));
    assert(pairs[1] == ("client_id"@, cfg.client_id@));
    assert(pairs[2] == ("redirect_uri"@, cfg.redirect_url@));
    assert(pairs[3] == ("scope"@, cfg.scopes@));
    assert(pairs[4] == ("state"@, state));
    assert(pairs[5] == ("nonce"@, nonce));
    assert(pairs[6].0 == "code_challenge"@);
    assert(pairs[7] == ("code_challenge_method"@, "S256"@));
}

/// A login that goes well: a configuration is in force, the provider is the configured issuer with
/// usable endpoints and takes the configured way in which the client authenticates itself, and the
/// state is stored. The provider is asked, the texts are drawn, the state is stored under its own
/// name until its lifetime has passed, and the browser is answered with the URL to go to and with
/// the cookie of the state.
pub proof fn a_login_that_goes_well_is_answered(
    cfg: EffectiveConfig,
    secure_cookies: bool,
    metadata: ProviderMetadata,
    verifier: String,
    state: String,
    nonce: String,
    now: i64,
    stages: Seq<LoginStage>,
    actions: Seq<LoginAction>,
    url: Seq<char>,
)
    requires
        stages.len() == 5,
        actions.len() == 4,
        stages[0] == LoginStage::Start,
        login_step(
            stages[0],
            LoginEvent::Config { cfg: Some(cfg), secure_cookies },
            stages[1],
            actions[0],
        ),
        login_step(stages[1], LoginEvent::Provider(Some(metadata)), stages[2], actions[1]),
        login_step(
            stages[2],
            LoginEvent::Drawn { verifier, state, nonce, now },
            stages[3],
            actions[2],
        ),
        login_step(stages[3], LoginEvent::Stored(true), stages[4], actions[3]),
        metadata.issuer@ == cfg.issuer@,
        config::usable(metadata.authorization_endpoint@, cfg.insecure_allow_http),
        config::usable(metadata.token_endpoint@, cfg.insecure_allow_http),
        config::usable(metadata.jwks_uri@, cfg.insecure_allow_http),
        metadata.token_endpoint_auth_methods_supported@.len() == 0 || exists|i: int|
            0 <= i < metadata.token_endpoint_auth_methods_supported@.len() && (
            #[trigger] metadata.token_endpoint_auth_methods_supported@[i])@
                == cfg.token_endpoint_auth_method@,
        url_with_query(
            metadata.authorization_endpoint@,
            authorization_pairs(cfg, state@, nonce@, verifier@),
        ) == Some(url),
    ensures
        actions[0] matches LoginAction::Discover { url: asked } && asked@
            == config::discovery_target(cfg),
        actions[1] is Draw,
        actions[2] matches LoginAction::Store { id, value, expires_at } && id@ == "oidc-state-"@
            + state@ && expires_at - now == cfg.state_ttl && value@ == session::login_state_record(
            LoginState { verifier, nonce, created_at: now },
        ),
        actions[3] matches LoginAction::Answer(answer) && answer@.status == 200 && answer@.body
            == json::json_string(url) && answer@.headers.contains(
            ("content-type"@, "application/json"@),
        ) && answer@.headers.contains(
            (
                "set-cookie"@,
                reply::cookie_text(
                    reply::bound_cookie(state@, cfg.state_ttl as int, secure_cookies),
                ),
            ),
        ) && answer@.headers.len() == 2,
        stages[4] is Answered,
{
    config::a_way_that_is_advertised_anywhere_is_taken(cfg, metadata);
    let answer = actions[3]->Answer_0;
    assert(answer@.headers[0] == ("content-type"@, "application/json"@));
    assert(answer@.headers[1].0 == "set-cookie"@);
}

/// A login that does not go well is answered with why: without a configuration that it is
/// unavailable, without a provider that can be used that the provider is, and where the state could
/// not be stored that the login failed.
pub proof fn a_login_that_fails_says_why(
    stage: LoginStage,
    event: LoginEvent,
    next: LoginStage,
    action: LoginAction,
)
    requires
        login_step(stage, event, next, action),
    ensures
        stage is Start ==> (event matches LoginEvent::Config { cfg: None, .. } ==> next is Answered
            && (action matches LoginAction::Answer(answer) && answer@ == reply::error_reply(
            503,
            "OIDC is unavailable"@,
        ))),
        stage matches LoginStage::Discovering { cfg, .. } ==> (
        event matches LoginEvent::Provider(Some(metadata)) ==> metadata.issuer@ != cfg.issuer@
            || !config::usable(metadata.authorization_endpoint@, cfg.insecure_allow_http)
            || !config::usable(metadata.token_endpoint@, cfg.insecure_allow_http)
            || !config::usable(metadata.jwks_uri@, cfg.insecure_allow_http) ==> next is Answered && (
        action matches LoginAction::Answer(answer) && answer@ == reply::error_reply(
            502,
            "OIDC provider is unavailable"@,
        ))),
        stage is Discovering && event == LoginEvent::Provider(None) ==> next is Answered && (
        action matches LoginAction::Answer(answer) && answer@ == reply::error_reply(
            502,
            "OIDC provider is unavailable"@,
        )),
        stage is Storing && event == LoginEvent::Stored(false) ==> next is Answered && (
        action matches LoginAction::Answer(answer) && answer@ == reply::error_reply(
            500,
            "OIDC login failed"@,
        )),
{
    if let LoginStage::Discovering { cfg, .. } = stage {
        if let LoginEvent::Provider(Some(metadata)) = event {
            config::an_unfit_provider_is_refused(cfg, metadata);
        }
    }
}

/// The random texts of a login are long: 64 characters for the verifier, which is within
/// the 43 to 128 that PKCE asks for, and 48 each for the state and the nonce.
pub proof fn random_texts_are_long()
    ensures
        VERIFIER_LENGTH == 64,
        STATE_LENGTH == 48,
        NONCE_LENGTH == 48,
{
}

/// What does not belong to the stage that a login is in ends it.
pub proof fn what_comes_out_of_place_ends_a_login(
    stage: LoginStage,
    event: LoginEvent,
    next: LoginStage,
    action: LoginAction,
)
    requires
        login_step(stage, event, next, action),
        !(stage is Start && event is Config),
        !(stage is Discovering && event is Provider),
        !(stage is Drawing && event is Drawn),
        !(stage is Storing && event is Stored),
    ensures
        next is Answered,
        action matches LoginAction::Answer(answer) && answer@ == reply::error_reply(
            500,
            "OIDC login failed"@,
        ),
{
}

} // verus!
