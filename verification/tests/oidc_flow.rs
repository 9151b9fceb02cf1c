use base64::engine::general_purpose::URL_SAFE_NO_PAD;
use base64::Engine;
use creator_signal_auth::automation::{AuthError, UserRole};
use creator_signal_auth::digest::pkce_challenge;
use creator_signal_auth::oidc::binding::{binding_value, email_key, subject_key, SubjectBinding};
use creator_signal_auth::oidc::callback::{
    after_token, callback, check_request, frontend_payload, frontend_token, landing_response, CallbackAction,
    CallbackEvent, CallbackQuery, CallbackStage, RequestFault,
};
use creator_signal_auth::oidc::config::{effective_config, EffectiveConfig, OidcSettings, ProviderMetadata};
use creator_signal_auth::oidc::login::{login, LoginAction, LoginEvent, LoginStage};
use creator_signal_auth::oidc::provision::{ExistingUser, Membership};
use creator_signal_auth::oidc::reply::{auth_tokens_text, CookieSettings, Reply};
use creator_signal_auth::oidc::session::{LoginState, OidcSession};
use creator_signal_auth::json::Json;
use creator_signal_auth::oidc::token::{required_claim_names, token_claims, Identity, TokenError};
use creator_signal_auth::oidc::validator::{
    bearer_session, refresh, requested_org, session_id_from_cookie, token_validator, KnownUser,
    ValidationAction, ValidationEvent, ValidationStage,
};

fn config() -> EffectiveConfig {
    effective_config(
        &OidcSettings {
            enabled: true,
            issuer: "https://auth.example.com".to_string(),
            client_id: "client-1".to_string(),
            client_secret: "s3cret".to_string(),
            client_secret_file: String::new(),
            token_endpoint_auth_method: "client_secret_basic".to_string(),
            redirect_url: "https://observe.example.com/cb".to_string(),
            post_login_url: "https://observe.example.com/web/cb".to_string(),
            scopes: "openid email".to_string(),
            default_org: "creator_signal".to_string(),
            role_claim: "roles".to_string(),
            required_role: "platform:operator".to_string(),
            session_max_age: 28_800,
            state_ttl: 600,
            insecure_allow_http: false,
            cookie_secure_only: true,
            web_url: String::new(),
            base_uri: String::new(),
        },
        Err(""),
    )
    .unwrap()
}

fn metadata() -> ProviderMetadata {
    ProviderMetadata {
        issuer: "https://auth.example.com".to_string(),
        authorization_endpoint: "https://auth.example.com/authorize?tenant=1".to_string(),
        token_endpoint: "https://auth.example.com/token".to_string(),
        jwks_uri: "https://auth.example.com/keys".to_string(),
        token_endpoint_auth_methods_supported: Vec::new(),
    }
}

fn error(answer: &Reply) -> (u16, &str) {
    (answer.status, answer.body.as_str())
}

// -- The start of a login -------------------------------------------------------------------

fn login_refusal(stage: LoginStage, event: LoginEvent) -> (u16, String) {
    match login(stage, event) {
        (LoginStage::Answered, LoginAction::Answer(answer)) => (answer.status, answer.body),
        other => panic!("{other:?}"),
    }
}

fn drawn_login() -> (LoginStage, LoginAction) {
    let (stage, action) = login(
        LoginStage::Start,
        LoginEvent::Config { cfg: Some(config()), secure_cookies: true },
    );
    assert!(matches!(
        action,
        LoginAction::Discover { url }
            if url == "https://auth.example.com/.well-known/openid-configuration"
    ));
    let (stage, action) = login(stage, LoginEvent::Provider(Some(metadata())));
    assert!(matches!(action, LoginAction::Draw));
    login(
        stage,
        LoginEvent::Drawn {
            verifier: "the-verifier".to_string(),
            state: "the-state".to_string(),
            nonce: "the-nonce".to_string(),
            now: 1_000,
        },
    )
}

#[test]
fn a_login_is_stored_and_answered() {
    let (stage, action) = drawn_login();
    match action {
        LoginAction::Store { id, value, expires_at } => {
            assert_eq!(id, "oidc-state-the-state");
            assert_eq!(
                value,
                r#"oidc-state:{"verifier":"the-verifier","nonce":"the-nonce","created_at":1000}"#
            );
            assert_eq!(expires_at, 1_600);
        }
        other => panic!("{other:?}"),
    }
    let (stage, action) = login(stage, LoginEvent::Stored(true));
    assert!(matches!(stage, LoginStage::Answered));
    match action {
        LoginAction::Answer(answer) => {
            assert_eq!(answer.status, 200);
            assert_eq!(
                answer.headers,
                [
                    ("content-type".to_string(), "application/json".to_string()),
                    (
                        "set-cookie".to_string(),
                        "oidc_state=the-state; HttpOnly; SameSite=Lax; Secure; Path=/; Max-Age=600"
                            .to_string()
                    ),
                ]
            );
            assert_eq!(
                answer.body,
                format!(
                    "\"https://auth.example.com/authorize?tenant=1&response_type=code&client_id=client-1&redirect_uri=https%3A%2F%2Fobserve.example.com%2Fcb&scope=openid+email&state=the-state&nonce=the-nonce&code_challenge={}&code_challenge_method=S256\"",
                    pkce_challenge("the-verifier")
                )
            );
        }
        other => panic!("{other:?}"),
    }
}

#[test]
fn a_login_that_cannot_start_is_refused() {
    assert_eq!(
        login_refusal(
            LoginStage::Start,
            LoginEvent::Config { cfg: None, secure_cookies: true }
        ),
        (503, r#"{"error":"OIDC is unavailable"}"#.to_string())
    );
    let discovering = || LoginStage::Discovering { cfg: config(), secure_cookies: true };
    let unavailable = (502, r#"{"error":"OIDC provider is unavailable"}"#.to_string());
    assert_eq!(login_refusal(discovering(), LoginEvent::Provider(None)), unavailable);
    let other = ProviderMetadata { issuer: "https://other".to_string(), ..metadata() };
    assert_eq!(login_refusal(discovering(), LoginEvent::Provider(Some(other))), unavailable);
    let (stage, _) = drawn_login();
    assert_eq!(
        login_refusal(stage, LoginEvent::Stored(false)),
        (500, r#"{"error":"OIDC login failed"}"#.to_string())
    );
    assert_eq!(
        login_refusal(LoginStage::Start, LoginEvent::Stored(true)).0,
        500
    );
}

// -- The completion of a login --------------------------------------------------------------

fn query() -> CallbackQuery {
    CallbackQuery {
        code: Some("the-code".to_string()),
        state: Some("the-state".to_string()),
        error: None,
        _error_description: None,
    }
}

#[test]
fn requests_come_from_the_browser_that_started_the_login() {
    assert_eq!(
        check_request(query(), Some("the-state")),
        Ok(("the-code".to_string(), "the-state".to_string()))
    );
    assert_eq!(check_request(query(), Some("other")), Err(RequestFault::OtherBrowser));
    assert_eq!(check_request(query(), None), Err(RequestFault::OtherBrowser));
    let incomplete = CallbackQuery { code: None, ..query() };
    assert_eq!(check_request(incomplete, Some("the-state")), Err(RequestFault::Incomplete));
    let incomplete = CallbackQuery { state: None, ..query() };
    assert_eq!(check_request(incomplete, None), Err(RequestFault::Incomplete));
    let denied = CallbackQuery { error: Some("access_denied".to_string()), ..query() };
    assert_eq!(check_request(denied, Some("the-state")), Err(RequestFault::Denied));
}

fn refusal(stage: CallbackStage, event: CallbackEvent) -> (u16, String) {
    match callback(stage, event) {
        (CallbackStage::Answered, CallbackAction::Answer(answer)) => (answer.status, answer.body),
        other => panic!("{other:?}"),
    }
}

fn refused(status: u16, message: &str) -> (u16, String) {
    (status, format!("{{\"error\":\"{message}\"}}"))
}

fn started() -> LoginState {
    LoginState {
        verifier: "the-verifier".to_string(),
        nonce: "the-nonce".to_string(),
        created_at: 1_000,
    }
}

fn identity() -> Identity {
    Identity {
        issuer: "https://auth.example.com".to_string(),
        subject: "123".to_string(),
        email: "operator@example.com".to_string(),
        name: "An Operator".to_string(),
        given_name: String::new(),
        family_name: String::new(),
    }
}

const KEYS: &str = r#"{"keys":[{"kty":"RSA","alg":"RS256","kid":"key-1","n":"qi4j8liDaCJ_KK_f6YczOXcv6F5NiXtzcLcQl6_xg9QNSZPpV6DPNkykt6Q5wc-M99ArLayaeiZnuUJD4-biqlZV7YmI-aWxtVaGBJmt1BItNZfIwtuf0iGvFpuQGd-J_eq6mj5OpXE6OjqzednqzSnNhPko8tGsV_G0k7569X8","e":"AQAB"}]}"#;

const SIGNATURE: &str = "Zl8QQ1FIOTgNjpBlmwjbftvqRz5eblr4E9DkAxg-CUeKVt5V6wrl0ZOC3SRFVs7h8AG7wfMgTRQNes29ppZ_bHD1zp8jSqyrX5cqcbsSYr6RqduoNi4UwxKx1zGPqPTBUIaPskgVrvixhnd6VTa33UkwiUZbku5EFu99csI_Ozg";

fn id_token() -> String {
    format!(
        "{}.{}.{SIGNATURE}",
        URL_SAFE_NO_PAD.encode(r#"{"typ":"JWT","alg":"RS256","kid":"key-1"}"#),
        URL_SAFE_NO_PAD.encode(
            r#"{"iss":"https://auth.example.com","aud":"client-1","sub":" 123 ","exp":4102444800,"nonce":"the-nonce","email":" Operator@Example.com ","email_verified":true,"name":"An Operator","roles":{"platform:operator":{"project-id":"project-id"}}}"#
        )
    )
}

#[test]
fn a_login_is_completed() {
    let (stage, action) = callback(
        CallbackStage::Start,
        CallbackEvent::Request { query: query(), cookie: Some("the-state".to_string()) },
    );
    assert!(matches!(action, CallbackAction::LoadConfig));
    let (stage, action) = callback(stage, CallbackEvent::Config(Some(config())));
    assert!(matches!(action, CallbackAction::ReadState { id } if id == "oidc-state-the-state"));
    // What was stored when the login was started is consumed before anything is exchanged.
    let stored = match drawn_login() {
        (_, LoginAction::Store { value, .. }) => value,
        other => panic!("{other:?}"),
    };
    let (stage, action) = callback(stage, CallbackEvent::StateRead(Some(stored)));
    assert!(matches!(action, CallbackAction::ConsumeState { id } if id == "oidc-state-the-state"));
    let (stage, action) = callback(stage, CallbackEvent::StateConsumed(true));
    assert!(matches!(
        action,
        CallbackAction::DecodeState { payload }
            if payload == r#"{"verifier":"the-verifier","nonce":"the-nonce","created_at":1000}"#
    ));
    let (stage, action) = callback(
        stage,
        CallbackEvent::StateDecoded { started: Some(started()), now: 1_600 },
    );
    assert!(matches!(action, CallbackAction::Discover { .. }));
    let (stage, action) = callback(stage, CallbackEvent::Provider(Some(metadata())));
    match action {
        CallbackAction::Exchange(request) => {
            assert_eq!(request.endpoint, "https://auth.example.com/token");
            assert!(request.form.contains(&("code".to_string(), "the-code".to_string())));
            assert!(
                request
                    .form
                    .contains(&("code_verifier".to_string(), "the-verifier".to_string()))
            );
        }
        other => panic!("{other:?}"),
    }
    let (stage, action) = callback(stage, CallbackEvent::IdToken(Some(id_token())));
    assert!(matches!(action, CallbackAction::FetchKeys { url } if url == "https://auth.example.com/keys"));
    let (stage, action) = callback(stage, CallbackEvent::Keys(Some(KEYS.as_bytes().to_vec())));
    assert!(matches!(action, CallbackAction::CheckEmail { email } if email == "operator@example.com"));
    let (stage, action) = callback(stage, CallbackEvent::EmailChecked(true));
    assert!(matches!(action, CallbackAction::ReadBinding { key } if key == email_key(&identity())));
    let (stage, action) = callback(stage, CallbackEvent::BindingRead(Some(None)));
    assert!(matches!(action, CallbackAction::ReadBinding { key } if key == subject_key(&identity())));
    let (stage, action) = callback(stage, CallbackEvent::BindingRead(Some(None)));
    assert!(matches!(
        action,
        CallbackAction::WriteBinding { key, value }
            if key == email_key(&identity()) && value == binding_value(&identity())
    ));
    let (stage, action) = callback(stage, CallbackEvent::BindingWritten(true));
    assert!(matches!(
        action,
        CallbackAction::WriteBinding { key, value }
            if key == subject_key(&identity()) && value == binding_value(&identity())
    ));
    let (stage, action) = callback(stage, CallbackEvent::BindingWritten(true));
    assert!(matches!(action, CallbackAction::EnsureOrg { org } if org == "creator_signal"));
    let (stage, action) = callback(stage, CallbackEvent::OrgEnsured(true));
    assert!(matches!(action, CallbackAction::FindUser { email } if email == "operator@example.com"));
    let (stage, action) = callback(
        stage,
        CallbackEvent::UserFound {
            existing: None,
            token: "t".to_string(),
            rum_token: "r".to_string(),
        },
    );
    assert!(matches!(action, CallbackAction::CreateUser(user) if user.first_name == "An Operator"));
    let (stage, action) = callback(stage, CallbackEvent::UserAdmitted(true));
    assert!(matches!(action, CallbackAction::DrawSession));
    let (stage, action) = callback(
        stage,
        CallbackEvent::SessionDrawn { id: "the-session".to_string(), now: 2_000 },
    );
    match action {
        CallbackAction::StoreSession { id, value, expires_at } => {
            assert_eq!(id, "the-session");
            assert_eq!(
                value,
                r#"oidc:{"version":1,"issuer":"https://auth.example.com","subject":"123","email":"operator@example.com"}"#
            );
            assert_eq!(expires_at, 30_800);
        }
        other => panic!("{other:?}"),
    }
    let (stage, action) = callback(stage, CallbackEvent::SessionStored(true));
    match action {
        CallbackAction::Encode { tokens, payload } => {
            assert_eq!(tokens, r#"{"access_token":"session the-session","refresh_token":""}"#);
            assert_eq!(
                payload,
                r#"{"email":"operator@example.com","family_name":"","given_name":"","is_valid":true,"name":"An Operator","sub":"123"}"#
            );
        }
        other => panic!("{other:?}"),
    }
    let (stage, action) = callback(
        stage,
        CallbackEvent::Encoded {
            tokens: "TOKENS".to_string(),
            payload: "PAYLOAD".to_string(),
            now: 0,
            cookies: CookieSettings { secure_only: true, same_site_lax: true },
        },
    );
    assert!(matches!(stage, CallbackStage::Answered));
    match action {
        CallbackAction::Answer(answer) => {
            assert_eq!(answer.status, 302);
            assert_eq!(answer.body, "");
            assert_eq!(
                answer.headers,
                [
                    (
                        "location".to_string(),
                        "https://observe.example.com/web/cb#id_token=eyJhbGciOiJub25lIiwidHlwIjoiSldUIn0.PAYLOAD.&new_user_login=true".to_string()
                    ),
                    (
                        "set-cookie".to_string(),
                        "auth_tokens=TOKENS; HttpOnly; SameSite=Lax; Secure; Path=/; Max-Age=28800; Expires=Thu, 01 Jan 1970 08:00:00 GMT".to_string()
                    ),
                    (
                        "set-cookie".to_string(),
                        "oidc_state=; HttpOnly; SameSite=Lax; Secure; Path=/; Max-Age=0; Expires=Thu, 01 Jan 1970 00:00:00 GMT".to_string()
                    ),
                ]
            );
        }
        other => panic!("{other:?}"),
    }
}

#[test]
fn each_refusal_of_a_login_has_its_status() {
    let cfg = config;
    let code = || "the-code".to_string();
    let request = |query: CallbackQuery, cookie: Option<&str>| {
        refusal(
            CallbackStage::Start,
            CallbackEvent::Request { query, cookie: cookie.map(str::to_string) },
        )
    };
    let denied = CallbackQuery { error: Some("e".to_string()), ..query() };
    assert_eq!(request(denied, None), refused(401, "OIDC login was denied"));
    let incomplete = CallbackQuery { code: None, ..query() };
    assert_eq!(
        request(incomplete, None),
        refused(400, "OIDC callback is missing code or state")
    );
    assert_eq!(
        request(query(), Some("other")),
        refused(400, "OIDC state is not bound to this browser")
    );
    assert_eq!(
        refusal(
            CallbackStage::Configuring { code: code(), state: "s".to_string() },
            CallbackEvent::Config(None)
        ),
        refused(503, "OIDC is unavailable")
    );
    let reading = CallbackStage::ReadingState { cfg: cfg(), code: code(), state_id: "s".to_string() };
    assert_eq!(
        refusal(reading, CallbackEvent::StateRead(None)),
        refused(400, "OIDC state is invalid")
    );
    let consuming = |stored: &str| CallbackStage::ConsumingState {
        cfg: cfg(),
        code: code(),
        stored: stored.to_string(),
    };
    assert_eq!(
        refusal(consuming("oidc:{}"), CallbackEvent::StateConsumed(true)),
        refused(400, "OIDC state is invalid")
    );
    // A state that could not be deleted might serve again.
    assert_eq!(
        refusal(consuming("oidc-state:{}"), CallbackEvent::StateConsumed(false)),
        refused(500, "OIDC login failed")
    );
    let decoding = || CallbackStage::DecodingState { cfg: cfg(), code: code() };
    assert_eq!(
        refusal(decoding(), CallbackEvent::StateDecoded { started: None, now: 1_000 }),
        refused(400, "OIDC state is invalid")
    );
    for now in [999, 1_601] {
        assert_eq!(
            refusal(decoding(), CallbackEvent::StateDecoded { started: Some(started()), now }),
            refused(400, "OIDC state has expired")
        );
    }
    let discovering = || CallbackStage::Discovering { cfg: cfg(), code: code(), started: started() };
    assert_eq!(
        refusal(discovering(), CallbackEvent::Provider(None)),
        refused(502, "OIDC provider is unavailable")
    );
    let insecure = ProviderMetadata { token_endpoint: "http://a".to_string(), ..metadata() };
    assert_eq!(
        refusal(discovering(), CallbackEvent::Provider(Some(insecure))),
        refused(502, "OIDC provider is unavailable")
    );
    let exchanging = CallbackStage::Exchanging {
        cfg: cfg(),
        nonce: "n".to_string(),
        jwks_uri: "u".to_string(),
    };
    assert_eq!(
        refusal(exchanging, CallbackEvent::IdToken(None)),
        refused(401, "OIDC login failed")
    );
    let rejected = refused(401, "OIDC identity was rejected");
    let fetching = || CallbackStage::FetchingKeys {
        cfg: cfg(),
        nonce: "other-nonce".to_string(),
        id_token: id_token(),
    };
    assert_eq!(refusal(fetching(), CallbackEvent::Keys(None)), rejected);
    assert_eq!(refusal(fetching(), CallbackEvent::Keys(Some(b"{}".to_vec()))), rejected);
    // The token is signed, but for another login.
    let (stage, _) = callback(fetching(), CallbackEvent::Keys(Some(KEYS.as_bytes().to_vec())));
    assert_eq!(refusal(stage, CallbackEvent::EmailChecked(true)), rejected);
    let conflict = SubjectBinding {
        issuer: identity().issuer,
        subject: "124".to_string(),
        email: identity().email,
    };
    for read in [None, Some(Some(conflict))] {
        let email = CallbackStage::ReadingEmailBinding { cfg: cfg(), identity: identity() };
        assert_eq!(refusal(email, CallbackEvent::BindingRead(read.clone())), rejected);
        let subject = CallbackStage::ReadingSubjectBinding { cfg: cfg(), identity: identity() };
        assert_eq!(refusal(subject, CallbackEvent::BindingRead(read)), rejected);
    }
    let email = CallbackStage::WritingEmailBinding { cfg: cfg(), identity: identity() };
    assert_eq!(refusal(email, CallbackEvent::BindingWritten(false)), rejected);
    let subject = CallbackStage::WritingSubjectBinding { cfg: cfg(), identity: identity() };
    assert_eq!(refusal(subject, CallbackEvent::BindingWritten(false)), rejected);
    let not_allowed = refused(403, "OIDC user is not allowed");
    let ensuring = CallbackStage::EnsuringOrg { cfg: cfg(), identity: identity() };
    assert_eq!(refusal(ensuring, CallbackEvent::OrgEnsured(false)), not_allowed);
    let native = ExistingUser { is_external: false, organizations: Vec::new() };
    assert_eq!(
        refusal(
            CallbackStage::FindingUser { cfg: cfg(), identity: identity() },
            CallbackEvent::UserFound {
                existing: Some(native),
                token: String::new(),
                rum_token: String::new(),
            }
        ),
        not_allowed
    );
    let admitting = CallbackStage::AdmittingUser { cfg: cfg(), identity: identity(), new_user: true };
    assert_eq!(refusal(admitting, CallbackEvent::UserAdmitted(false)), not_allowed);
    let storing = CallbackStage::StoringSession {
        cfg: cfg(),
        identity: identity(),
        new_user: true,
        session_id: "s".to_string(),
    };
    assert_eq!(
        refusal(storing, CallbackEvent::SessionStored(false)),
        refused(500, "OIDC login failed")
    );
    assert_eq!(
        refusal(CallbackStage::Answered, CallbackEvent::SessionStored(true)),
        refused(500, "OIDC login failed")
    );
}

#[test]
fn the_check_of_a_token_decides_what_follows() {
    assert_eq!(required_claim_names(), ["aud", "exp", "iss", "sub"]);
    // The token has no claim `nbf`, and none is asked for.
    let checked = token_claims(&config(), KEYS.as_bytes(), &id_token());
    assert!(checked.as_ref().is_ok_and(|claims| claims.get("nbf").is_none()));
    match after_token(config(), "the-nonce".to_string(), checked) {
        (
            CallbackStage::CheckingEmail { nonce, claims, .. },
            CallbackAction::CheckEmail { email },
        ) => {
            assert_eq!(nonce, "the-nonce");
            assert_eq!(claims.text_field("sub"), Some(" 123 "));
            assert_eq!(email, "operator@example.com");
        }
        other => panic!("{other:?}"),
    }
    let rejected: Result<Json, TokenError> = Err(TokenError::MissingKid);
    match after_token(config(), "the-nonce".to_string(), rejected) {
        (CallbackStage::Answered, CallbackAction::Answer(answer)) => {
            assert_eq!(
                error(&answer),
                (401, r#"{"error":"OIDC identity was rejected"}"#)
            );
        }
        other => panic!("{other:?}"),
    }
}

#[test]
fn the_tokens_name_the_session() {
    for id in ["0190-abcd", "a b", "session x"] {
        let tokens: serde_json::Value = serde_json::from_str(&auth_tokens_text(id)).unwrap();
        let access_token = tokens["access_token"].as_str().unwrap();
        assert_eq!(session_id_from_cookie(Some(access_token)), Some(id));
        assert_eq!(bearer_session(&format!("Bearer {access_token}")), Some(id));
    }
}

#[test]
fn known_users_are_admitted_as_administrators() {
    let found = |organization: &str, role: UserRole| CallbackEvent::UserFound {
        existing: Some(ExistingUser {
            is_external: true,
            organizations: vec![Membership { name: organization.to_string(), role }],
        }),
        token: "t".to_string(),
        rum_token: "r".to_string(),
    };
    let finding = || CallbackStage::FindingUser { cfg: config(), identity: identity() };
    let (stage, action) = callback(finding(), found("creator_signal", UserRole::Admin));
    assert!(matches!(action, CallbackAction::DrawSession));
    assert!(matches!(stage, CallbackStage::DrawingSession { new_user: false, .. }));
    let (stage, action) = callback(finding(), found("creator_signal", UserRole::Viewer));
    assert!(matches!(
        action,
        CallbackAction::ChangeRole(change)
            if change.org == "creator_signal" && change.role == UserRole::Admin
    ));
    let (stage, action) = callback(stage, CallbackEvent::UserAdmitted(true));
    assert!(matches!(action, CallbackAction::DrawSession));
    assert!(matches!(stage, CallbackStage::DrawingSession { new_user: false, .. }));
    let (stage, action) = callback(finding(), found("other", UserRole::Admin));
    assert!(matches!(action, CallbackAction::AddMember(member) if member.org == "creator_signal"));
    assert!(matches!(stage, CallbackStage::AdmittingUser { new_user: false, .. }));
}

#[test]
fn fragments_are_continued() {
    let mut cfg = config();
    cfg.post_login_url = "https://observe.example.com/#/cb".to_string();
    let answer = landing_response(
        &cfg,
        false,
        "t",
        "p",
        0,
        CookieSettings { secure_only: false, same_site_lax: false },
    );
    assert_eq!(
        answer.headers[0].1,
        format!(
            "https://observe.example.com/#/cb&id_token={}&new_user_login=false",
            frontend_token("p")
        )
    );
    assert!(answer.headers[1].1.contains("SameSite=None"));
    assert!(!answer.headers[1].1.contains("Secure"));
    assert!(frontend_payload(&identity()).contains("\"sub\":\"123\""));
}

// -- The use of a session -------------------------------------------------------------------

fn session() -> OidcSession {
    OidcSession {
        version: 1,
        issuer: "https://auth.example.com".to_string(),
        subject: "123".to_string(),
        email: "operator@example.com".to_string(),
    }
}

#[test]
fn sessions_are_confirmed() {
    let stored = r#"oidc:{"version":1}"#;
    assert_eq!(session_id_from_cookie(Some("session abc")), Some("abc"));
    assert_eq!(session_id_from_cookie(Some("Bearer abc")), None);
    assert_eq!(session_id_from_cookie(None), None);
    let answer = refresh(Some("session abc"), Some(stored), Some(session()));
    assert_eq!((answer.status, answer.headers.len(), answer.body.as_str()), (204, 0, ""));
    let missing = (401, r#"{"error":"OIDC session is missing"}"#);
    assert_eq!(error(&refresh(None, Some(stored), Some(session()))), missing);
    let expired = (401, r#"{"error":"OIDC session has expired"}"#);
    assert_eq!(error(&refresh(Some("session abc"), None, None)), expired);
    assert_eq!(error(&refresh(Some("session abc"), Some(stored), None)), expired);
    assert_eq!(
        error(&refresh(Some("session abc"), Some("oidc-state:{}"), Some(session()))),
        expired
    );
}

#[test]
fn the_organization_of_a_path_is_found() {
    let org = |path: &str, base: &str| requested_org(path, base, "v2");
    assert_eq!(org("/api/default/_search", "").as_deref(), Some("default"));
    assert_eq!(org("/base/api/default", "/base").as_deref(), Some("default"));
    assert_eq!(org("/api/v2/default/x", "").as_deref(), Some("default"));
    assert_eq!(org("/api//default", "").as_deref(), Some("default"));
    assert_eq!(org("/default/x", "").as_deref(), Some("default"));
    // Without the start of the interface the whole path counts, with the base in it.
    assert_eq!(org("/base/default", "/base").as_deref(), Some("base"));
    assert_eq!(org("/api/v2", ""), None);
    assert_eq!(org("/api/", ""), None);
    assert_eq!(org("/", ""), None);
    for name in ["organizations", "clusters", "license", "invites"] {
        assert_eq!(org(&format!("/api/{name}"), ""), None);
        assert_eq!(org(&format!("/api/v2/{name}/x"), ""), None);
    }
}

#[test]
fn only_session_tokens_are_borne() {
    assert_eq!(bearer_session("Bearer session abc"), Some("abc"));
    assert_eq!(bearer_session("Bearer  session abc  "), Some("abc"));
    assert_eq!(bearer_session("Bearersession abc"), Some("abc"));
    assert_eq!(bearer_session("Bearer abc"), None);
    assert_eq!(bearer_session("bearer session abc"), None);
    assert_eq!(bearer_session("Basic abc"), None);
}

fn rejection(stage: ValidationStage, event: ValidationEvent) -> AuthError {
    match token_validator(stage, event) {
        (ValidationStage::Decided, ValidationAction::Reject(error)) => error,
        other => panic!("{other:?}"),
    }
}

fn unauthorized(message: &str) -> AuthError {
    AuthError::Unauthorized(message.to_string())
}

fn api_request(auth: &str) -> ValidationEvent {
    ValidationEvent::Request {
        auth: auth.to_string(),
        path: "/api/default/_search".to_string(),
        base_uri: String::new(),
        v2_prefix: "v2".to_string(),
    }
}

#[test]
fn a_request_with_a_session_is_let_in() {
    let (stage, action) = token_validator(ValidationStage::Start, api_request("Bearer session abc"));
    assert!(matches!(action, ValidationAction::ReadSession { id } if id == "abc"));
    let stored = r#"oidc:{"version":1}"#.to_string();
    let (stage, action) = token_validator(stage, ValidationEvent::SessionRead(Some(stored)));
    assert!(matches!(action, ValidationAction::DecodeSession { payload } if payload == r#"{"version":1}"#));
    let (stage, action) = token_validator(stage, ValidationEvent::SessionDecoded(Some(session())));
    assert!(matches!(action, ValidationAction::LoadConfig));
    let (stage, action) = token_validator(stage, ValidationEvent::Config(Some(config())));
    match action {
        ValidationAction::FindUser { email, org } => {
            assert_eq!(email, "operator@example.com");
            assert_eq!(org.as_deref(), Some("default"));
        }
        other => panic!("{other:?}"),
    }
    let user = KnownUser { email: "operator@example.com".to_string(), role: UserRole::Admin };
    let (_, action) = token_validator(stage, ValidationEvent::UserFound(Some(user)));
    match action {
        ValidationAction::Admit(result) => {
            assert_eq!(result.user_email, "operator@example.com");
            assert_eq!(result.user_role, Some(UserRole::Admin));
            assert!(!result.is_internal_user);
        }
        other => panic!("{other:?}"),
    }
}

#[test]
fn each_rejection_of_a_request_has_its_message() {
    assert_eq!(
        rejection(ValidationStage::Start, api_request("Bearer eyJ")),
        unauthorized("Unsupported bearer token")
    );
    let invalid = unauthorized("OIDC session is invalid");
    let reading = || ValidationStage::ReadingSession { org: None };
    assert_eq!(rejection(reading(), ValidationEvent::SessionRead(None)), invalid);
    let state = "oidc-state:{}".to_string();
    assert_eq!(rejection(reading(), ValidationEvent::SessionRead(Some(state))), invalid);
    let decoding = || ValidationStage::DecodingSession { org: None, stored: "oidc:{}".to_string() };
    assert_eq!(rejection(decoding(), ValidationEvent::SessionDecoded(None)), invalid);
    let newer = OidcSession { version: 2, ..session() };
    assert_eq!(rejection(decoding(), ValidationEvent::SessionDecoded(Some(newer))), invalid);
    let configuring = || ValidationStage::Configuring { org: None, session: session() };
    assert_eq!(
        rejection(configuring(), ValidationEvent::Config(None)),
        unauthorized("OIDC is unavailable")
    );
    let mut moved = config();
    moved.issuer = "https://new.example.com".to_string();
    assert_eq!(
        rejection(configuring(), ValidationEvent::Config(Some(moved))),
        unauthorized("OIDC issuer changed")
    );
    assert_eq!(
        rejection(ValidationStage::FindingUser, ValidationEvent::UserFound(None)),
        unauthorized("OIDC user is not admitted")
    );
    assert_eq!(
        rejection(ValidationStage::Decided, ValidationEvent::UserFound(None)),
        invalid
    );
}
