use std::collections::HashMap;

use base64::engine::general_purpose::URL_SAFE_NO_PAD;
use base64::Engine;
use creator_signal_auth::automation::UserRole;
use creator_signal_auth::digest::{binding_key, digest_hex, pkce_challenge, secure_equal};
use creator_signal_auth::json::Json;
use creator_signal_auth::oidc::binding::{
    binding_value, check_binding, email_key, is_listed, subject_key, SubjectBinding,
};
use creator_signal_auth::oidc::config::{
    discover, discovery_url, effective_config, public_url_is_allowed, secret_file_to_read,
    ConfigError, DiscoveryError, EffectiveConfig, OidcSettings, ProviderMetadata, UrlError,
};
use creator_signal_auth::oidc::provision::{
    provision_user, Admission, ExistingUser, Membership, ProvisionError,
};
use creator_signal_auth::oidc::reply::{
    auth_cookie, auth_tokens_text, error_response, removed_state_cookie, state_cookie,
    CookieSettings, SameSite,
};
use creator_signal_auth::oidc::session::{
    is_state_in_time, login_state_payload, login_state_value, parse_session, session_payload,
    session_value, state_session_id, LoginState, OidcSession, SessionError,
};
use creator_signal_auth::oidc::token::{
    choose_key, claim_contains, claimed_email, exchange_code, token_claims, validate_id_token,
    Identity, SigningKey, TokenError, TokenHeader,
};
use serde_json::Value;

fn settings() -> OidcSettings {
    OidcSettings {
        enabled: true,
        issuer: " https://auth.example.com ".to_string(),
        client_id: " client-1 ".to_string(),
        client_secret: " s3cret ".to_string(),
        client_secret_file: String::new(),
        token_endpoint_auth_method: "client_secret_basic".to_string(),
        redirect_url: "https://observe.example.com/config/oidc/callback".to_string(),
        post_login_url: String::new(),
        scopes: "openid profile email".to_string(),
        default_org: " creator signal ".to_string(),
        role_claim: "roles".to_string(),
        required_role: "platform:operator".to_string(),
        session_max_age: 28_800,
        state_ttl: 600,
        insecure_allow_http: false,
        cookie_secure_only: true,
        web_url: "https://observe.example.com//".to_string(),
        base_uri: "/base".to_string(),
    }
}

fn config() -> EffectiveConfig {
    effective_config(&settings(), Err("")).unwrap()
}

fn metadata() -> ProviderMetadata {
    ProviderMetadata {
        issuer: "https://auth.example.com".to_string(),
        authorization_endpoint: "https://auth.example.com/authorize".to_string(),
        token_endpoint: "https://auth.example.com/token".to_string(),
        jwks_uri: "https://auth.example.com/keys".to_string(),
        token_endpoint_auth_methods_supported: Vec::new(),
    }
}

fn text(content: &str) -> Json {
    Json::Text(content.to_string())
}

fn object(fields: Vec<(&str, Json)>) -> Json {
    Json::Object(
        fields
            .into_iter()
            .map(|(name, value)| (name.to_string(), value))
            .collect(),
    )
}

fn claims() -> Vec<(&'static str, Json)> {
    vec![
        ("aud", text("client-1")),
        ("email", text(" Operator@Example.COM ")),
        ("email_verified", Json::Bool(true)),
        ("name", text("An Operator")),
        ("nonce", text("the-nonce")),
        ("roles", object(vec![("platform:operator", object(vec![]))])),
        ("sub", text(" 123 ")),
    ]
}

fn identity() -> Identity {
    validate_id_token(&config(), &object(claims()), "the-nonce", true).unwrap()
}

// -- Configuration --------------------------------------------------------------------------

#[test]
fn insecure_provider_urls_are_rejected_by_default() {
    assert!(public_url_is_allowed("http://auth.example.com", false).is_err());
    assert!(public_url_is_allowed("https://auth.example.com", false).is_ok());
    assert!(public_url_is_allowed("http://localhost:8080", true).is_ok());
}

fn unparsable() -> UrlError {
    UrlError::Unparsable("relative URL without a base".to_string())
}

#[test]
fn each_fault_of_a_url_is_told() {
    assert_eq!(public_url_is_allowed("not a url", true), Err(unparsable()));
    assert_eq!(public_url_is_allowed("http://a.example", false), Err(UrlError::NotHttps));
    assert_eq!(public_url_is_allowed("ftp://a.example", true), Err(UrlError::NotHttps));
    assert_eq!(public_url_is_allowed("HTTPS://a.example", false), Ok(()));
    assert_eq!(UrlError::NotHttps.message(), "OIDC URLs must use HTTPS");
    assert_eq!(unparsable().message(), "relative URL without a base");
}

#[test]
fn settings_become_a_configuration() {
    let cfg = config();
    assert_eq!(cfg.issuer, "https://auth.example.com");
    assert_eq!(cfg.client_id, "client-1");
    assert_eq!(cfg.client_secret, "s3cret");
    assert_eq!(cfg.default_org, "creator_signal");
    assert_eq!(cfg.post_login_url, "https://observe.example.com/base/web/cb");
    assert_eq!(cfg.session_max_age, 28_800);
    assert_eq!(discovery_url(&cfg), "https://auth.example.com/.well-known/openid-configuration");
    let mut from_file = settings();
    from_file.client_secret = String::new();
    from_file.client_secret_file = "/run/secrets/oidc".to_string();
    assert_eq!(secret_file_to_read(&from_file).as_deref(), Some("/run/secrets/oidc"));
    assert_eq!(effective_config(&from_file, Ok(" x \n")).unwrap().client_secret, "x");
    assert_eq!(secret_file_to_read(&settings()), None);
}

#[test]
fn each_fault_of_the_settings_is_told() {
    let fault = |change: fn(&mut OidcSettings)| {
        let mut changed = settings();
        change(&mut changed);
        effective_config(&changed, Err("no such file")).unwrap_err()
    };
    assert_eq!(fault(|s| s.enabled = false), ConfigError::Disabled);
    assert_eq!(fault(|s| s.issuer = " ".to_string()), ConfigError::MissingClient);
    assert_eq!(fault(|s| s.client_id = String::new()), ConfigError::MissingClient);
    assert_eq!(fault(|s| s.redirect_url = String::new()), ConfigError::MissingClient);
    assert_eq!(fault(|s| s.client_secret_file = "/f".to_string()), ConfigError::TwoSecrets);
    assert_eq!(
        fault(|s| {
            s.client_secret = String::new();
            s.client_secret_file = "/f".to_string();
        }),
        ConfigError::SecretUnreadable("no such file".to_string())
    );
    assert_eq!(fault(|s| s.client_secret = "  ".to_string()), ConfigError::MissingSecret);
    assert_eq!(fault(|s| s.default_org = String::new()), ConfigError::MissingOrganization);
    assert_eq!(fault(|s| s.required_role = " ".to_string()), ConfigError::MissingRole);
    assert_eq!(fault(|s| s.role_claim = String::new()), ConfigError::MissingRole);
    assert_eq!(fault(|s| s.scopes = "openidx email".to_string()), ConfigError::MissingOpenidScope);
    assert_eq!(fault(|s| s.session_max_age = 59), ConfigError::LifetimeOutOfRange);
    assert_eq!(fault(|s| s.session_max_age = 86_401), ConfigError::LifetimeOutOfRange);
    assert_eq!(fault(|s| s.state_ttl = 901), ConfigError::LifetimeOutOfRange);
    assert_eq!(
        fault(|s| s.token_endpoint_auth_method = "none".to_string()),
        ConfigError::UnsupportedAuthMethod
    );
    assert_eq!(fault(|s| s.cookie_secure_only = false), ConfigError::InsecureCookie);
    assert_eq!(
        fault(|s| s.issuer = "http://auth.example.com".to_string()),
        ConfigError::Url(UrlError::NotHttps)
    );
    assert_eq!(
        fault(|s| s.post_login_url = "/web/cb".to_string()),
        ConfigError::Url(unparsable())
    );
    assert_eq!(
        ConfigError::InsecureCookie.message(),
        "ZO_COOKIE_SECURE_ONLY must be true for production OIDC"
    );
    assert_eq!(
        ConfigError::SecretUnreadable("no such file".to_string()).message(),
        "failed to read OIDC client secret file: no such file"
    );
    let mut local = settings();
    local.insecure_allow_http = true;
    local.cookie_secure_only = false;
    local.issuer = "http://localhost:8080".to_string();
    assert!(effective_config(&local, Err("")).is_ok());
}

#[test]
fn a_provider_is_the_configured_one() {
    assert!(discover(&config(), metadata()).is_ok());
    let fault = |change: fn(&mut ProviderMetadata)| {
        let mut changed = metadata();
        change(&mut changed);
        discover(&config(), changed).unwrap_err()
    };
    assert_eq!(
        fault(|m| m.issuer = "https://auth.example.com/".to_string()),
        DiscoveryError::IssuerMismatch
    );
    assert_eq!(
        fault(|m| m.token_endpoint_auth_methods_supported = vec!["private_key_jwt".to_string()]),
        DiscoveryError::AuthMethodNotAdvertised
    );
    assert_eq!(
        fault(|m| m.jwks_uri = "http://auth.example.com/keys".to_string()),
        DiscoveryError::Url(UrlError::NotHttps)
    );
    assert_eq!(
        DiscoveryError::IssuerMismatch.message(),
        "OIDC discovery issuer does not match configured issuer"
    );
    let mut advertised = metadata();
    advertised.token_endpoint_auth_methods_supported = vec!["client_secret_basic".to_string()];
    assert!(discover(&config(), advertised).is_ok());
}

// -- Digests --------------------------------------------------------------------------------

#[test]
fn pkce_challenge_is_base64url_sha256() {
    assert_eq!(
        pkce_challenge("dBjftJeZ4CVP-mB92K27uhbUJU1p1r_wW1gFWFOEjXk"),
        "E9Melhoa2OwvFrEMTJguCHaoeK1t8URWbuGJSstw-cM"
    );
}

#[test]
fn digests_are_written_in_lower_case() {
    assert_eq!(
        digest_hex(b"abc"),
        "ba7816bf8f01cfea414140de5dae2223b00361a396177a9cb410ff61f20015ad"
    );
    assert!(secure_equal("same", "same"));
    assert!(!secure_equal("same", "Same"));
    assert_eq!(
        binding_key("email", "abc"),
        "email:ungWv48Bz-pBQUDeXa4iI7ADYaOWF3qctBD_YfIAFa0"
    );
}

// -- Sessions -------------------------------------------------------------------------------

fn decoded_session(payload: &str) -> Option<OidcSession> {
    let value: Value = serde_json::from_str(payload).ok()?;
    Some(OidcSession {
        version: u8::try_from(value["version"].as_u64()?).ok()?,
        issuer: value["issuer"].as_str()?.to_string(),
        subject: value["subject"].as_str()?.to_string(),
        email: value["email"].as_str()?.to_string(),
    })
}

fn session() -> OidcSession {
    OidcSession {
        version: 1,
        issuer: "https://auth.example.com".to_string(),
        subject: "123".to_string(),
        email: "operator@example.com".to_string(),
    }
}

#[test]
fn session_format_is_versioned_and_namespaced() {
    let session = session();
    let encoded = session_value(&session);
    let decoded = decoded_session(session_payload(&encoded).unwrap());
    assert_eq!(parse_session(&encoded, decoded).unwrap().email, session.email);
    assert!(parse_session("plain-token", None).is_err());
}

#[test]
fn sessions_are_stored_as_json() {
    assert_eq!(
        session_value(&session()),
        r#"oidc:{"version":1,"issuer":"https://auth.example.com","subject":"123","email":"operator@example.com"}"#
    );
    let quoted = OidcSession { subject: "a\"b\\c\n".to_string(), ..session() };
    let decoded = decoded_session(session_payload(&session_value(&quoted)).unwrap()).unwrap();
    assert_eq!(decoded, quoted);
}

#[test]
fn each_fault_of_a_session_is_told() {
    let stored = session_value(&session());
    assert_eq!(parse_session("oidc", Some(session())), Err(SessionError::NotOidc));
    assert_eq!(parse_session(&stored, None), Err(SessionError::Undecodable));
    let newer = OidcSession { version: 2, ..session() };
    assert_eq!(parse_session(&stored, Some(newer)), Err(SessionError::UnsupportedVersion));
}

#[test]
fn states_and_sessions_do_not_mix() {
    let login = LoginState {
        verifier: "v".to_string(),
        nonce: "n".to_string(),
        created_at: -7,
    };
    let stored = login_state_value(&login);
    assert_eq!(stored, r#"oidc-state:{"verifier":"v","nonce":"n","created_at":-7}"#);
    assert_eq!(
        login_state_payload(&stored),
        Some(r#"{"verifier":"v","nonce":"n","created_at":-7}"#)
    );
    assert_eq!(parse_session(&stored, Some(session())), Err(SessionError::NotOidc));
    assert_eq!(login_state_payload(&session_value(&session())), None);
    assert_eq!(state_session_id("abc"), "oidc-state-abc");
}

#[test]
fn states_have_their_time() {
    assert!(is_state_in_time(100, 100, 60));
    assert!(is_state_in_time(100, 160, 60));
    assert!(!is_state_in_time(100, 161, 60));
    assert!(!is_state_in_time(100, 99, 60));
    assert!(!is_state_in_time(i64::MIN, i64::MAX, 900));
    assert!(!is_state_in_time(i64::MAX, i64::MIN, 900));
}

// -- Answers and cookies --------------------------------------------------------------------

#[test]
fn errors_are_answered_in_json() {
    let answer = error_response(400, "a \"b\"");
    assert_eq!(answer.status, 400);
    assert_eq!(
        answer.headers,
        [("content-type".to_string(), "application/json".to_string())]
    );
    assert_eq!(answer.body, r#"{"error":"a \"b\""}"#);
}

#[test]
fn cookies_are_configured() {
    let bound = state_cookie("s", 600, true);
    assert_eq!((bound.name.as_str(), bound.value.as_str()), ("oidc_state", "s"));
    assert!(bound.http_only && bound.secure && bound.same_site == SameSite::Lax);
    assert_eq!((bound.max_age, bound.expires), (600, None));
    let removed = removed_state_cookie(false);
    assert_eq!((removed.value.as_str(), removed.max_age, removed.expires), ("", 0, Some(0)));
    let settings = CookieSettings { secure_only: true, same_site_lax: false };
    let kept = auth_cookie("tokens", 60, 1_000, settings);
    assert_eq!(kept.name, "auth_tokens");
    assert_eq!(kept.same_site, SameSite::Unrestricted);
    assert_eq!(kept.expires, Some(1_060));
    assert_eq!(
        auth_tokens_text("id"),
        r#"{"access_token":"session id","refresh_token":""}"#
    );
}

// -- Tokens ---------------------------------------------------------------------------------

#[test]
fn a_code_is_exchanged_as_configured() {
    let pair = |name: &str, value: &str| (name.to_string(), value.to_string());
    let form = vec![
        pair("grant_type", "authorization_code"),
        pair("code", "the-code"),
        pair("redirect_uri", "https://observe.example.com/config/oidc/callback"),
        pair("code_verifier", "the-verifier"),
    ];
    let request = exchange_code(&config(), &metadata(), "the-code", "the-verifier");
    assert_eq!(request.endpoint, "https://auth.example.com/token");
    assert_eq!(request.basic_auth, Some(pair("client-1", "s3cret")));
    assert_eq!(request.form, form);
    let mut posted = config();
    posted.token_endpoint_auth_method = "client_secret_post".to_string();
    let request = exchange_code(&posted, &metadata(), "the-code", "the-verifier");
    assert_eq!(request.basic_auth, None);
    let mut longer = form;
    longer.push(pair("client_id", "client-1"));
    longer.push(pair("client_secret", "s3cret"));
    assert_eq!(request.form, longer);
}

#[test]
fn zitadel_role_object_is_supported() {
    let claim = object(vec![
        ("platform:operator", object(vec![("project-id", text("project-id"))])),
        ("other", object(vec![("project-id", text("project-id"))])),
    ]);
    assert!(claim_contains(&claim, "platform:operator"));
    assert!(!claim_contains(&claim, "platform:admin"));
}

#[test]
fn roles_are_found_wherever_they_stand() {
    assert!(claim_contains(&text("a"), "a"));
    assert!(!claim_contains(&text("ab"), "a"));
    assert!(!claim_contains(&Json::Null, "a"));
    assert!(!claim_contains(&Json::Bool(true), "true"));
    let nested = Json::Array(vec![Json::Null, object(vec![("x", Json::Array(vec![text("a")]))])]);
    assert!(claim_contains(&nested, "a"));
    assert!(claim_contains(&nested, "x"));
    assert!(!claim_contains(&nested, "b"));
}

fn key(kid: &str, algorithm: Option<&str>, rsa: bool) -> SigningKey {
    SigningKey {
        kid: Some(kid.to_string()),
        algorithm: algorithm.map(str::to_string),
        rsa: if rsa { Some((format!("n-{kid}"), "e".to_string())) } else { None },
    }
}

#[test]
fn the_key_of_a_token_is_chosen() {
    let keys = Ok(vec![
        key("a", Some("ES256"), false),
        key("b", None, true),
        key("b", Some("RS512"), true),
        key("c", Some("RS256"), false),
    ]);
    let header = |algorithm: &str, kid: Option<&str>| {
        Ok(TokenHeader {
            algorithm: algorithm.to_string(),
            kid: kid.map(str::to_string),
        })
    };
    assert_eq!(
        choose_key(&keys, &header("RS256", Some("b"))),
        Ok(("n-b".to_string(), "e".to_string()))
    );
    let reason = || "a reason".to_string();
    assert_eq!(
        choose_key(&Err(reason()), &header("RS256", Some("b"))),
        Err(TokenError::KeysUnreadable(reason()))
    );
    assert_eq!(choose_key(&keys, &Err(reason())), Err(TokenError::HeaderUnreadable(reason())));
    assert_eq!(choose_key(&keys, &header("HS256", Some("b"))), Err(TokenError::NotRs256));
    assert_eq!(choose_key(&keys, &header("RS256", None)), Err(TokenError::MissingKid));
    assert_eq!(choose_key(&keys, &header("RS256", Some("z"))), Err(TokenError::KeyNotFound));
    assert_eq!(choose_key(&keys, &header("RS256", Some("a"))), Err(TokenError::KeyNotRs256));
    assert_eq!(choose_key(&keys, &header("RS256", Some("c"))), Err(TokenError::KeyNotRsa));
}

const KEYS: &str = r#"{"keys":[{"kty":"EC","crv":"P-256","x":"x","y":"y","kid":"key-0"},{"kty":"RSA","alg":"RS256","use":"sig","kid":"key-1","n":"qi4j8liDaCJ_KK_f6YczOXcv6F5NiXtzcLcQl6_xg9QNSZPpV6DPNkykt6Q5wc-M99ArLayaeiZnuUJD4-biqlZV7YmI-aWxtVaGBJmt1BItNZfIwtuf0iGvFpuQGd-J_eq6mj5OpXE6OjqzednqzSnNhPko8tGsV_G0k7569X8","e":"AQAB"}]}"#;

const HEADER: &str = r#"{"typ":"JWT","alg":"RS256","kid":"key-1"}"#;

const REST: &str = r#""nonce":"the-nonce","email":" Operator@Example.com ","email_verified":true,"name":"An Operator","roles":{"platform:operator":{"project-id":"project-id"}}}"#;

fn token(header: &str, claims: &str, signature: &str) -> String {
    format!(
        "{}.{}.{signature}",
        URL_SAFE_NO_PAD.encode(header),
        URL_SAFE_NO_PAD.encode(format!("{claims},{REST}"))
    )
}

fn verify(token: &str) -> Result<Json, TokenError> {
    token_claims(&config(), KEYS.as_bytes(), token)
}

#[test]
fn a_signed_token_is_verified() {
    let token = token(
        HEADER,
        r#"{"iss":"https://auth.example.com","aud":"client-1","sub":" 123 ","exp":4102444800"#,
        "Zl8QQ1FIOTgNjpBlmwjbftvqRz5eblr4E9DkAxg-CUeKVt5V6wrl0ZOC3SRFVs7h8AG7wfMgTRQNes29ppZ_bHD1zp8jSqyrX5cqcbsSYr6RqduoNi4UwxKx1zGPqPTBUIaPskgVrvixhnd6VTa33UkwiUZbku5EFu99csI_Ozg",
    );
    let claims = verify(&token).unwrap();
    assert_eq!(claims.text_field("sub"), Some(" 123 "));
    assert_eq!(claims.unsigned_field("exp"), Some(4_102_444_800));
    assert_eq!(claimed_email(&claims), "operator@example.com");
    let identity = validate_id_token(&config(), &claims, "the-nonce", true).unwrap();
    assert_eq!(identity.subject, "123");
    assert_eq!(identity.email, "operator@example.com");
    let mut other = config();
    other.client_id = "client-2".to_string();
    assert_eq!(
        token_claims(&other, KEYS.as_bytes(), &token).unwrap_err(),
        TokenError::Unverified("InvalidAudience".to_string())
    );
}

#[test]
fn several_audiences_may_be_named() {
    let claims = verify(&token(
        HEADER,
        r#"{"iss":"https://auth.example.com","aud":["client-2","client-1"],"sub":" 123 ","exp":4102444800"#,
        "jWON4Vf2jXGPrVgUBCDoevqo9IV4h5DUtR7Hchbf9_jyf4HjHiR6CShTuqbd_GTYHhBS57PYsESF-HyuSYxx-b5Ub879ifQeAcm3Y_WOQuqpHmKFJN6XGlySIqCWGuy_YXAv7FmLfazcU2tCwNPzFNEu0ZKh28xLhfHayHfGk3E",
    ))
    .unwrap();
    assert_eq!(
        validate_id_token(&config(), &claims, "the-nonce", true),
        Err(TokenError::AuthorizedParty)
    );
}

#[test]
fn what_is_not_signed_for_this_client_is_not_verified() {
    for (claims, signature, reason) in [
        (
            r#"{"iss":"https://auth.example.com","aud":"client-1","sub":" 123 ","exp":1000000000"#,
            "pWSxzk4DAZpAYkxvPszwScxa7sWd4ezOg53e8Og7fXSsOaYdyZOY3-yfH6nEWG0d9H1sL-cddYc7xblBwnzJ4xPThaHqIBxGoNQesyILOSWQt04bLy5iVxiVrT9LwRiu_F7EMS8pV1cXwcSfpZU6txEKnTICImQ3JEGYtmjVcfU",
            "ExpiredSignature",
        ),
        (
            r#"{"iss":"https://auth.example.com","aud":"client-2","sub":" 123 ","exp":4102444800"#,
            "IGixHr6tqmzyKzEk1AqdwbNBlHSpurL6AyZWXAIcnxj8Fvcb_HkHPtIa85S_buOu2SDopTl1q-gCrVP0ePvhTdrLMgnJCi8ZqHA5Za5t5hKAWSG8COWlA1jyhB3f-WpKpJxcoC25SBMeuuuGIdR38oUD4zV72EffLdQZcsI49I8",
            "InvalidAudience",
        ),
        (
            r#"{"iss":"https://other.example.com","aud":"client-1","sub":" 123 ","exp":4102444800"#,
            "llqi5kuPISS8b4XgH15ksKTIgPy3_UD-0q8HmaTt0QX4tYP4OeyW4u7CpIde8dRp_sK1fs3zPD_pqTO-biLxQLStWbkVpc4yUzjZyhw3Ldwl8x_wF1XtHgb8Qm2i3gTr0aLqXj9yr1BjdkudZyi3btgw0qon6FO1YNdgvOyieRQ",
            "InvalidIssuer",
        ),
        (
            r#"{"iss":"https://auth.example.com","aud":"client-1","exp":4102444800"#,
            "GUVzrguMZQW3yOr2ZpWLGaTEfPoeVuZrBy-dlKk_dMe6d27vu5m19SjPQ2NqdQlbx-l7RFgLmekS1TsboJREfzH6X9JGQEBdpzPeW8nenSy5eSkEVQTkxHafqLZJGbca9x-2u54GOBRWCJJgbkRgW6TGeO7WHGiemndqe0t0vx4",
            "Missing required claim: sub",
        ),
        (
            r#"{"iss":"https://auth.example.com","aud":"client-1","sub":" 123 ""#,
            "XleBpk_YDBRc0PpLZ3guc7M_iLkP_D036YlSg-VuP_fXkHTC1_8SNYvV3z-Ipva0MlLlHcEycYQvq8cFyCnsoEKI4LP8coYdip-6uL2sPczNWpFv3jwePDXzLHMVN-FBi5_TZiPDNNW834uAOE71nTEQKT2om__pfui7CZJqJZs",
            "Missing required claim: exp",
        ),
        // Signed, but with other claims.
        (
            r#"{"iss":"https://auth.example.com","aud":"client-1","sub":" 124 ","exp":4102444800"#,
            "Zl8QQ1FIOTgNjpBlmwjbftvqRz5eblr4E9DkAxg-CUeKVt5V6wrl0ZOC3SRFVs7h8AG7wfMgTRQNes29ppZ_bHD1zp8jSqyrX5cqcbsSYr6RqduoNi4UwxKx1zGPqPTBUIaPskgVrvixhnd6VTa33UkwiUZbku5EFu99csI_Ozg",
            "InvalidSignature",
        ),
    ] {
        assert_eq!(
            verify(&token(HEADER, claims, signature)).unwrap_err(),
            TokenError::Unverified(reason.to_string())
        );
    }
}

#[test]
fn headers_of_tokens_are_looked_at() {
    let claims = r#"{"iss":"https://auth.example.com","aud":"client-1","sub":" 123 ","exp":4102444800"#;
    let refused = |header: &str, signature: &str| {
        verify(&token(header, claims, signature)).unwrap_err()
    };
    assert_eq!(
        refused(r#"{"typ":"JWT","alg":"RS256"}"#, "oEFvg1LcnniZT5rwtb2CXsvSwOBHf_F6MD19FamGlEIgW7hRCmeR0o3WWu1AV-8x6iYI80r5Hv5IMnfS1RhjAdrqwXy9bL63USS0tWa1DZW828kk8nWNlStxGzyJ-ftZuXYW9QaOkl_pC9_dvfZfkJiYRBIwf0_cf6ENW0dSUo8"),
        TokenError::MissingKid
    );
    assert_eq!(
        refused(r#"{"typ":"JWT","alg":"RS256","kid":"key-9"}"#, "oaOKz8S_HkHPAiHUtowSm6RQKN1HC8BQK7aWTPkjmdD57Z9M1DT3mKG4Bw3iJGbhwO_nlzeDZrEJBTTDO11eJuWeAkmZ5pqy_R_FUMa9hT9mV3ADGAqKIZuvd2Ermp-WKXFazzmf_iX0EVljE-qsfHcYYZFc15sGbvwN7EWzFpQ"),
        TokenError::KeyNotFound
    );
    assert_eq!(
        refused(r#"{"typ":"JWT","alg":"HS256","kid":"key-1"}"#, "ZfhAM8WJF3bG-QU15waXDFlaiPRGUmsvgXvG-AXiucz2HLgd0QNrzo14L8AAJFtKw9HBiKj9R6lhb1r-wQpRtLHuDkvwR1UVnA03Dyv-MulxHBno4oKPLteOYA6s4zsB2lXnIbRAufTIcvljf7k2lbjOW54F3LLmdPzl9j_1dvU"),
        TokenError::NotRs256
    );
    assert_eq!(
        refused(r#"{"typ":"JWT","alg":"RS256","kid":"key-0"}"#, "Zl8QQ1FIOTgNjpBlmwjbftvqRz5eblr4E9DkAxg-CUeKVt5V6wrl0ZOC3SRFVs7h8AG7wfMgTRQNes29ppZ_bHD1zp8jSqyrX5cqcbsSYr6RqduoNi4UwxKx1zGPqPTBUIaPskgVrvixhnd6VTa33UkwiUZbku5EFu99csI_Ozg"),
        TokenError::KeyNotRsa
    );
    assert_eq!(
        verify("no token").unwrap_err(),
        TokenError::HeaderUnreadable("InvalidToken".to_string())
    );
    let unreadable = token_claims(&config(), b"{}", "no token").unwrap_err();
    assert!(matches!(&unreadable, TokenError::KeysUnreadable(_)));
    assert_eq!(unreadable.message(), "missing field `keys` at line 1 column 2");
    assert_eq!(TokenError::NotRs256.message(), "OIDC ID token must use RS256");
}

#[test]
fn an_identity_is_what_the_claims_say() {
    let identity = identity();
    assert_eq!(identity.issuer, "https://auth.example.com");
    assert_eq!(identity.subject, "123");
    assert_eq!(identity.email, "operator@example.com");
    assert_eq!(identity.name, "An Operator");
    assert_eq!((identity.given_name.as_str(), identity.family_name.as_str()), ("", ""));
}

#[test]
fn each_fault_of_the_claims_is_told() {
    let with = |name: &'static str, value: Option<Json>| {
        let mut changed: Vec<(&str, Json)> =
            claims().into_iter().filter(|(field, _)| *field != name).collect();
        if let Some(value) = value {
            changed.push((name, value));
        }
        object(changed)
    };
    let fault = |claims: Json| {
        validate_id_token(&config(), &claims, "the-nonce", true).unwrap_err()
    };
    assert_eq!(fault(with("nonce", None)), TokenError::Nonce);
    assert_eq!(fault(with("nonce", Some(text("other")))), TokenError::Nonce);
    assert_eq!(fault(with("azp", Some(text("client-2")))), TokenError::AuthorizedParty);
    assert_eq!(
        fault(with("aud", Some(Json::Array(vec![text("client-1"), text("client-2")])))),
        TokenError::AuthorizedParty
    );
    assert_eq!(fault(with("email_verified", None)), TokenError::EmailUnverified);
    assert_eq!(fault(with("email_verified", Some(text("true")))), TokenError::EmailUnverified);
    assert_eq!(fault(with("roles", None)), TokenError::RoleMissing);
    assert_eq!(fault(with("roles", Some(text("viewer")))), TokenError::RoleMissing);
    assert_eq!(fault(with("sub", Some(text("  ")))), TokenError::SubjectMissing);
    assert_eq!(
        validate_id_token(&config(), &object(claims()), "the-nonce", false).unwrap_err(),
        TokenError::EmailInvalid
    );
    assert!(
        validate_id_token(&config(), &with("azp", Some(text("client-1"))), "the-nonce", true)
            .is_ok()
    );
    let single = with("aud", Some(Json::Array(vec![text("client-1")])));
    assert!(validate_id_token(&config(), &single, "the-nonce", true).is_ok());
}

#[test]
fn email_addresses_are_compared_in_lower_case() {
    assert_eq!(claimed_email(&object(vec![("email", text("\t\u{c4}@X.Org "))])), "\u{e4}@x.org");
    assert_eq!(claimed_email(&object(vec![])), "");
}

// -- Bindings -------------------------------------------------------------------------------

#[test]
fn bindings_have_two_keys() {
    let identity = identity();
    assert_eq!(
        email_key(&identity),
        binding_key("email", "operator@example.com")
    );
    assert_eq!(
        subject_key(&identity),
        binding_key("subject", "https://auth.example.com\n123")
    );
    assert_ne!(email_key(&identity), subject_key(&identity));
    assert_eq!(
        binding_value(&identity),
        r#"{"issuer":"https://auth.example.com","subject":"123","email":"operator@example.com"}"#
    );
    let keys = vec!["email:ab".to_string(), "email:a".to_string()];
    assert!(is_listed(&keys, "email:a"));
    assert!(!is_listed(&keys, "email:"));
}

#[test]
fn an_identity_is_bound_to_one_account() {
    let identity = identity();
    let bound = SubjectBinding {
        issuer: identity.issuer.clone(),
        subject: identity.subject.clone(),
        email: identity.email.clone(),
    };
    assert!(check_binding(&identity, &None).is_ok());
    assert!(check_binding(&identity, &Some(bound.clone())).is_ok());
    for other in [
        SubjectBinding { issuer: "https://b".to_string(), ..bound.clone() },
        SubjectBinding { subject: "124".to_string(), ..bound.clone() },
        SubjectBinding { email: "other@example.com".to_string(), ..bound },
    ] {
        assert!(check_binding(&identity, &Some(other)).is_err());
    }
}

fn bind(store: &mut HashMap<String, SubjectBinding>, identity: &Identity, writes: usize) -> bool {
    let keys = [email_key(identity), subject_key(identity)];
    if keys.iter().any(|key| check_binding(identity, &store.get(key).cloned()).is_err()) {
        return false;
    }
    for key in keys.into_iter().take(writes) {
        store.insert(
            key,
            SubjectBinding {
                issuer: identity.issuer.clone(),
                subject: identity.subject.clone(),
                email: identity.email.clone(),
            },
        );
    }
    true
}

#[test]
fn bindings_hold_over_many_logins() {
    let mut store = HashMap::new();
    let first = identity();
    // The first of the two writes alone does not lock the identity out.
    assert!(bind(&mut store, &first, 1));
    assert!(bind(&mut store, &first, 2));
    assert_eq!(store.len(), 2);
    let before = store.clone();
    assert!(bind(&mut store, &first, 2));
    assert_eq!(store, before);
    let reissued = Identity { subject: "124".to_string(), ..first.clone() };
    assert!(!bind(&mut store, &reissued, 2));
    let renamed = Identity { email: "other@example.com".to_string(), ..first.clone() };
    assert!(!bind(&mut store, &renamed, 2));
    let elsewhere = Identity { issuer: "https://b.example.com".to_string(), ..first };
    assert!(!bind(&mut store, &elsewhere, 2));
    let second = Identity {
        subject: "124".to_string(),
        email: "other@example.com".to_string(),
        ..identity()
    };
    assert!(bind(&mut store, &second, 2));
    assert!(before.iter().all(|(key, binding)| store.get(key) == Some(binding)));
}

// -- Admission ------------------------------------------------------------------------------

fn member(name: &str, role: UserRole) -> Membership {
    Membership { name: name.to_string(), role }
}

#[test]
fn new_users_are_created_in_the_default_organization() {
    match provision_user(&config(), &identity(), &None, "t", "r") {
        Ok(Admission::Create(user)) => {
            assert_eq!(user.email, "operator@example.com");
            assert_eq!((user.first_name.as_str(), user.last_name.as_str()), ("An Operator", ""));
            assert_eq!((user.password.as_str(), user.salt.as_str()), ("", ""));
            assert!(user.is_external && user.password_ext.is_none());
            assert_eq!(user.organizations.len(), 1);
            let org = &user.organizations[0];
            assert_eq!((org.name.as_str(), org.org_name.as_str()), ("creator_signal", "creator_signal"));
            assert_eq!((org.token.as_str(), org.rum_token.as_deref()), ("", None));
            assert_eq!(org.role, UserRole::Admin);
        }
        other => panic!("{other:?}"),
    }
    let parted = Identity { family_name: "Operator".to_string(), ..identity() };
    match provision_user(&config(), &parted, &None, "t", "r") {
        Ok(Admission::Create(user)) => {
            assert_eq!((user.first_name.as_str(), user.last_name.as_str()), ("", "Operator"));
        }
        other => panic!("{other:?}"),
    }
}

#[test]
fn known_users_become_administrators_of_the_default_organization() {
    let user = |is_external: bool, organizations: Vec<Membership>| {
        Some(ExistingUser { is_external, organizations })
    };
    let provision = |existing: Option<ExistingUser>| {
        provision_user(&config(), &identity(), &existing, "t", "r")
    };
    assert!(matches!(
        provision(user(
            true,
            vec![member("x", UserRole::Viewer), member("creator_signal", UserRole::Admin)]
        )),
        Ok(Admission::Member)
    ));
    for role in [UserRole::Editor, UserRole::Viewer, UserRole::Other("user".to_string())] {
        // Being an administrator elsewhere does not count.
        let existing =
            user(true, vec![member("x", UserRole::Admin), member("creator_signal", role)]);
        match provision(existing) {
            Ok(Admission::Promote(change)) => {
                assert_eq!(change.org, "creator_signal");
                assert_eq!(change.email, "operator@example.com");
                assert_eq!(change.role, UserRole::Admin);
            }
            other => panic!("{other:?}"),
        }
    }
    match provision(user(true, vec![member("x", UserRole::Admin)])) {
        Ok(Admission::Join(joined)) => {
            assert_eq!(joined.org, "creator_signal");
            assert_eq!(joined.email, "operator@example.com");
            assert_eq!(joined.role, UserRole::Admin);
            assert_eq!(joined.token, "t");
            assert_eq!(joined.rum_token.as_deref(), Some("rumr"));
        }
        other => panic!("{other:?}"),
    }
    assert_eq!(
        provision(user(false, vec![member("creator_signal", UserRole::Admin)])).unwrap_err(),
        ProvisionError::NativeAccount
    );
    assert_eq!(
        provision(user(
            true,
            vec![member("creator_signal", UserRole::Admin), member("x", UserRole::ServiceAccount)]
        ))
        .unwrap_err(),
        ProvisionError::ServiceAccount
    );
    assert_eq!(
        ProvisionError::ServiceAccount.message(),
        "service accounts cannot use OIDC login"
    );
}
