//! The exchange of a code for an ID token, and what an ID token has to say.

use crate::json;
use crate::json::{Json, JsonView};
use crate::oidc::config::{EffectiveConfig, ProviderMetadata};
use crate::text;
use vstd::prelude::*;
use vstd::string::*;

verus! {

// ---------------------------------------------------------------------------------------------
// The exchange of a code
// ---------------------------------------------------------------------------------------------

/// The request that exchanges a code for tokens. `basic_auth` is the name and the password with
/// which the client authenticates itself in a header, where it does so there.
#[derive(Debug)]
pub struct TokenRequest {
    pub endpoint: String,
    pub basic_auth: Option<(String, String)>,
    pub form: Vec<(String, String)>,
}

/// The form of a request that exchanges a code, but for the client's own name and secret.
pub open spec fn code_form(
    cfg: EffectiveConfig,
    code: Seq<char>,
    verifier: Seq<char>,
) -> Seq<(Seq<char>, Seq<char>)> {
    seq![
        ("grant_type"@, "authorization_code"@),
        ("code"@, code),
        ("redirect_uri"@, cfg.redirect_url@),
        ("code_verifier"@, verifier),
    ]
}

/// The form with which the client authenticates itself.
pub open spec fn client_form(cfg: EffectiveConfig) -> Seq<(Seq<char>, Seq<char>)> {
    seq![("client_id"@, cfg.client_id@), ("client_secret"@, cfg.client_secret@)]
}

/// The request exchanges the code: it goes to the token endpoint, and the client's name and secret
/// stand either in a header or in the form, as configured.
pub open spec fn exchanges_code(
    request: TokenRequest,
    cfg: EffectiveConfig,
    metadata: ProviderMetadata,
    code: Seq<char>,
    verifier: Seq<char>,
) -> bool {
    &&& request.endpoint@ == metadata.token_endpoint@
    &&& if cfg.token_endpoint_auth_method@ == "client_secret_basic"@ {
        &&& request.basic_auth matches Some((name, password)) && name@ == cfg.client_id@
            && password@ == cfg.client_secret@
        &&& text::pair_views(request.form@) == code_form(cfg, code, verifier)
    } else {
        &&& request.basic_auth is None
        &&& text::pair_views(request.form@) == code_form(cfg, code, verifier) + client_form(cfg)
    }
}

/// The request that exchanges a code for tokens.
pub fn exchange_code(
    cfg: &EffectiveConfig,
    metadata: &ProviderMetadata,
    code: &str,
    verifier: &str,
) -> (request: TokenRequest)
    ensures
        exchanges_code(request, *cfg, *metadata, code@, verifier@),
{
    let mut form: Vec<(String, String)> = Vec::new();
    form.push(("grant_type".to_owned(), "authorization_code".to_owned()));
    form.push(("code".to_owned(), code.to_owned()));
    form.push(("redirect_uri".to_owned(), cfg.redirect_url.clone()));
    form.push(("code_verifier".to_owned(), verifier.to_owned()));
    assert(text::pair_views(form@) =~= code_form(*cfg, code@, verifier@));
    let endpoint: String = metadata.token_endpoint.clone();
    if text::same_text(cfg.token_endpoint_auth_method.as_str(), "client_secret_basic") {
        let basic_auth: Option<(String, String)> = Some(
            (cfg.client_id.clone(), cfg.client_secret.clone()),
        );
        TokenRequest { endpoint, basic_auth, form }
    } else {
        form.push(("client_id".to_owned(), cfg.client_id.clone()));
        form.push(("client_secret".to_owned(), cfg.client_secret.clone()));
        assert(text::pair_views(form@) =~= code_form(*cfg, code@, verifier@) + client_form(
            *cfg,
        ));
        TokenRequest { endpoint, basic_auth: None, form }
    }
}

// ---------------------------------------------------------------------------------------------
// Roles
// ---------------------------------------------------------------------------------------------

/// A claim names a role: it is the role, a list with an item that names it, or an object that has
/// it as a key or names it in a value.
pub open spec fn names_role(value: JsonView, expected: Seq<char>) -> bool
    decreases value,
{
    match value {
        JsonView::Text(content) => content == expected,
        JsonView::Array(items) => exists|i: int|
            0 <= i < items.len() && names_role(#[trigger] items[i], expected),
        JsonView::Object(fields) => exists|i: int|
            0 <= i < fields.len() && ((#[trigger] fields[i]).0 == expected || names_role(
                fields[i].1,
                expected,
            )),
        _ => false,
    }
}

proof fn lemma_item_names_role(items: Seq<JsonView>, expected: Seq<char>, i: int)
    requires
        0 <= i < items.len(),
        names_role(items[i], expected),
    ensures
        names_role(JsonView::Array(items), expected),
{
    let value = JsonView::Array(items);
    assert(0 <= i < value->Array_0.len() && names_role(value->Array_0[i], expected));
}

proof fn lemma_field_names_role(fields: Seq<(Seq<char>, JsonView)>, expected: Seq<char>, i: int)
    requires
        0 <= i < fields.len(),
        fields[i].0 == expected || names_role(fields[i].1, expected),
    ensures
        names_role(JsonView::Object(fields), expected),
{
    let value = JsonView::Object(fields);
    assert(0 <= i < value->Object_0.len() && (value->Object_0[i].0 == expected || names_role(
        value->Object_0[i].1,
        expected,
    )));
}

/// Whether a claim names a role.
pub fn claim_contains(value: &Json, expected: &str) -> (contains: bool)
    ensures
        contains == names_role(value@, expected@),
    decreases value,
{
    match value {
        Json::Text(content) => text::same_text(content.as_str(), expected),
        Json::Array(items) => {
            let ghost views: Seq<JsonView> = json::item_views(items@);
            proof {
                json::lemma_array_view(*items);
            }
            let mut i: usize = 0;
            while i < items.len()
                invariant
                    i <= items.len(),
                    views == json::item_views(items@),
                    *value == Json::Array(*items),
                    value@ == JsonView::Array(views),
                    forall|j: int| 0 <= j < i ==> !names_role(#[trigger] views[j], expected@),
                decreases items.len() - i,
            {
                assert(views[i as int] == items@[i as int]@);
                assert(decreases_to!(*items => items@));
                assert(decreases_to!(items@ => items@[i as int]));
                if claim_contains(&items[i], expected) {
                    proof {
                        lemma_item_names_role(views, expected@, i as int);
                    }
                    return true;
                }
                i = i + 1;
            }
            false
        },
        Json::Object(fields) => {
            let ghost views: Seq<(Seq<char>, JsonView)> = json::field_views(fields@);
            proof {
                json::lemma_object_view(*fields);
            }
            let mut i: usize = 0;
            while i < fields.len()
                invariant
                    i <= fields.len(),
                    views == json::field_views(fields@),
                    *value == Json::Object(*fields),
                    value@ == JsonView::Object(views),
                    forall|j: int|
                        0 <= j < i ==> (#[trigger] views[j]).0 != expected@ && !names_role(
                            views[j].1,
                            expected@,
                        ),
                decreases fields.len() - i,
            {
                assert(views[i as int] == (fields@[i as int].0@, fields@[i as int].1@));
                if text::same_text(fields[i].0.as_str(), expected) || claim_contains(
                    &fields[i].1,
                    expected,
                ) {
                    proof {
                        lemma_field_names_role(views, expected@, i as int);
                    }
                    return true;
                }
                i = i + 1;
            }
            false
        },
        _ => false,
    }
}

// ---------------------------------------------------------------------------------------------
// Signatures
// ---------------------------------------------------------------------------------------------

/// Why an ID token is rejected. What could not be read or verified comes with the reason.
#[derive(Clone, Debug, PartialEq, Eq)]
pub enum TokenError {
    KeysUnreadable(String),
    HeaderUnreadable(String),
    NotRs256,
    MissingKid,
    KeyNotFound,
    KeyNotRs256,
    KeyNotRsa,
    Unverified(String),
    Nonce,
    AuthorizedParty,
    EmailUnverified,
    RoleMissing,
    EmailInvalid,
    SubjectMissing,
}

/// What a [`TokenError`] stands for.
pub enum TokenErrorView {
    KeysUnreadable(Seq<char>),
    HeaderUnreadable(Seq<char>),
    NotRs256,
    MissingKid,
    KeyNotFound,
    KeyNotRs256,
    KeyNotRsa,
    Unverified(Seq<char>),
    Nonce,
    AuthorizedParty,
    EmailUnverified,
    RoleMissing,
    EmailInvalid,
    SubjectMissing,
}

impl View for TokenError {
    type V = TokenErrorView;

    open spec fn view(&self) -> TokenErrorView {
        match *self {
            TokenError::KeysUnreadable(reason) => TokenErrorView::KeysUnreadable(reason@),
            TokenError::HeaderUnreadable(reason) => TokenErrorView::HeaderUnreadable(reason@),
            TokenError::NotRs256 => TokenErrorView::NotRs256,
            TokenError::MissingKid => TokenErrorView::MissingKid,
            TokenError::KeyNotFound => TokenErrorView::KeyNotFound,
            TokenError::KeyNotRs256 => TokenErrorView::KeyNotRs256,
            TokenError::KeyNotRsa => TokenErrorView::KeyNotRsa,
            TokenError::Unverified(reason) => TokenErrorView::Unverified(reason@),
            TokenError::Nonce => TokenErrorView::Nonce,
            TokenError::AuthorizedParty => TokenErrorView::AuthorizedParty,
            TokenError::EmailUnverified => TokenErrorView::EmailUnverified,
            TokenError::RoleMissing => TokenErrorView::RoleMissing,
            TokenError::EmailInvalid => TokenErrorView::EmailInvalid,
            TokenError::SubjectMissing => TokenErrorView::SubjectMissing,
        }
    }
}

/// A key that a provider signs with. `rsa` is the modulus and the exponent of an RSA key.
#[derive(Debug)]
pub struct SigningKey {
    pub kid: Option<String>,
    pub algorithm: Option<String>,
    pub rsa: Option<(String, String)>,
}

/// What a [`SigningKey`] stands for.
pub struct SigningKeyView {
    pub kid: Option<Seq<char>>,
    pub algorithm: Option<Seq<char>>,
    pub rsa: Option<(Seq<char>, Seq<char>)>,
}

impl View for SigningKey {
    type V = SigningKeyView;

    open spec fn view(&self) -> SigningKeyView {
        SigningKeyView {
            kid: text::text_view(self.kid),
            algorithm: text::text_view(self.algorithm),
            rsa: match self.rsa {
                Some((modulus, exponent)) => Some((modulus@, exponent@)),
                None => None,
            },
        }
    }
}

/// The views of a provider's keys, or of the reason why they could not be read.
pub open spec fn key_views(keys: Result<Vec<SigningKey>, String>) -> Result<
    Seq<SigningKeyView>,
    Seq<char>,
> {
    match keys {
        Ok(list) => Ok(Seq::new(list@.len(), |i: int| list@[i]@)),
        Err(reason) => Err(reason@),
    }
}

/// The algorithm and the key that the header of a token names.
#[derive(Debug)]
pub struct TokenHeader {
    pub algorithm: String,
    pub kid: Option<String>,
}

/// The view of the header of a token, or of the reason why it could not be read.
pub open spec fn header_view(header: Result<TokenHeader, String>) -> Result<
    (Seq<char>, Option<Seq<char>>),
    Seq<char>,
> {
    match header {
        Ok(read) => Ok((read.algorithm@, text::text_view(read.kid))),
        Err(reason) => Err(reason@),
    }
}

/// The keys in a JSON Web Key Set; where the bytes are none, the reason.
pub uninterp spec fn jwk_set(data: Seq<u8>) -> Result<Seq<SigningKeyView>, Seq<char>>;

/// `serde_json::from_slice` to a `jsonwebtoken::jwk::JwkSet`: the keys in a JSON Web Key Set in
/// their order, or the text of the error where the bytes are none.
#[verifier::external_body]
fn parse_jwks(data: &[u8]) -> (keys: Result<Vec<SigningKey>, String>)
    ensures
        key_views(keys) == jwk_set(data@),
{
    let set = serde_json::from_slice::<jsonwebtoken::jwk::JwkSet>(data).map_err(|e| e.to_string())?;
    Ok(set.keys.into_iter().map(|key| SigningKey {
        kid: key.common.key_id,
        algorithm: key.common.key_algorithm.map(|algorithm| algorithm.to_string()),
        rsa: match key.algorithm {
            jsonwebtoken::jwk::AlgorithmParameters::RSA(rsa) => Some((rsa.n, rsa.e)),
            jsonwebtoken::jwk::AlgorithmParameters::EllipticCurve(_) => None,
            jsonwebtoken::jwk::AlgorithmParameters::OctetKey(_) => None,
            jsonwebtoken::jwk::AlgorithmParameters::OctetKeyPair(_) => None,
        },
    }).collect())
}

/// The algorithm and the key that the header of a token names; where the text is no token, the
/// reason.
pub uninterp spec fn token_header(token: Seq<char>) -> Result<
    (Seq<char>, Option<Seq<char>>),
    Seq<char>,
>;

/// `jsonwebtoken::decode_header`: the algorithm, by its name, and the key that the header of a
/// token names, or the text of the error where the text is no token.
#[verifier::external_body]
fn read_token_header(token: &str) -> (header: Result<TokenHeader, String>)
    ensures
        header_view(header) == token_header(token@),
{
    let header = jsonwebtoken::decode_header(token).map_err(|error| error.to_string())?;
    Ok(TokenHeader { algorithm: format!("{:?}", header.alg), kid: header.kid })
}

/// The claims of a token that the RSA key signed by the algorithm and that is valid at the time, in
/// seconds since the start of 1970, for the audience, from the issuer, and with the claims that are
/// required; `None` where the text is no such token.
pub uninterp spec fn decoded_at(
    token: Seq<char>,
    algorithm: Seq<char>,
    modulus: Seq<char>,
    exponent: Seq<char>,
    audience: Seq<char>,
    issuer: Seq<char>,
    required: Seq<Seq<char>>,
    now: int,
) -> Option<JsonView>;

/// A claim is a text, or a list with that text in it.
pub open spec fn claims_text(claim: Option<JsonView>, expected: Seq<char>) -> bool {
    match claim {
        Some(JsonView::Text(content)) => content == expected,
        Some(JsonView::Array(items)) => items.contains(JsonView::Text(expected)),
        _ => false,
    }
}

/// The names of claims.
pub open spec fn claim_names(names: Seq<&str>) -> Seq<Seq<char>> {
    names.map_values(|name: &str| name@)
}

/// The view of the claims of a token, where it is valid.
pub open spec fn claims_view(claims: Result<Json, String>) -> Option<JsonView> {
    match claims {
        Ok(read) => Some(read@),
        Err(_) => None,
    }
}

/// A time of expiry is a number.
pub open spec fn is_expiry(claim: Option<JsonView>) -> bool {
    claim matches Some(JsonView::Unsigned(_)) || claim matches Some(JsonView::Float(_))
}

/// A time of expiry that is an integer has not passed for longer than the leeway of a minute.
pub open spec fn unexpired(claim: Option<JsonView>, now: int) -> bool {
    claim matches Some(JsonView::Unsigned(at)) ==> now <= at + 60
}

/// `jsonwebtoken::decode`: the claims of a token whose signature the RSA key verifies by the
/// algorithm, and which passes the validation of `jsonwebtoken` at the time that the machine's
/// clock shows; that has to be after the first minute of 1970. The result depends on nothing but
/// the arguments and that time.
///
/// Of the claims that are required there is an issuer and an audience, each the given one or a list
/// with it, a subject, which is a text, and a time of expiry, which is a number and, where it is an
/// integer, has not passed. Nothing is said of the text of the error.
#[verifier::external_body]
fn decode_token(
    token: &str,
    algorithm: &str,
    key: (&str, &str),
    audience: &str,
    issuer: &str,
    required: &[&str],
) -> (claims: Result<Json, String>)
    ensures
        exists|now: int|
            #[trigger] decoded_at(
                token@,
                algorithm@,
                key.0@,
                key.1@,
                audience@,
                issuer@,
                claim_names(required@),
                now,
            ) == claims_view(claims) && (claims matches Ok(read) ==> unexpired(
                read@.get("exp"@),
                now,
            )),
        claims matches Ok(read) ==> claim_names(required@).contains("iss"@) ==> claims_text(
            read@.get("iss"@),
            issuer@,
        ),
        claims matches Ok(read) ==> claim_names(required@).contains("aud"@) ==> claims_text(
            read@.get("aud"@),
            audience@,
        ),
        claims matches Ok(read) ==> claim_names(required@).contains("sub"@) ==> read@.text_field(
            "sub"@,
        ) is Some,
        claims matches Ok(read) ==> claim_names(required@).contains("exp"@) ==> is_expiry(
            read@.get("exp"@),
        ),
{
    let decoding = jsonwebtoken::DecodingKey::from_rsa_components(key.0, key.1);
    let decoding = decoding.map_err(|error| error.to_string())?;
    let parsed = algorithm.parse().map_err(|error: jsonwebtoken::errors::Error| error.to_string())?;
    let mut validation = jsonwebtoken::Validation::new(parsed);
    validation.set_audience(&[audience]);
    validation.set_issuer(&[issuer]);
    validation.set_required_spec_claims(required);
    let data = jsonwebtoken::decode::<serde_json::Map<String, serde_json::Value>>(
        token,
        &decoding,
        &validation,
    ).map_err(|error| error.to_string())?;
    Ok(json::json_from_value(serde_json::Value::Object(data.claims)))
}

/// The position, from `from` on, of the first key with the given name.
pub open spec fn key_position_from(keys: Seq<SigningKeyView>, kid: Seq<char>, from: int) -> Option<
    int,
>
    decreases keys.len() - from,
{
    if from < 0 || from >= keys.len() {
        None
    } else if keys[from].kid == Some(kid) {
        Some(from)
    } else {
        key_position_from(keys, kid, from + 1)
    }
}

/// The key that verifies a token: an RSA key, by the name in the token's header, for the
/// algorithm RS256, or what is wrong.
pub open spec fn key_choice(
    keys: Result<Seq<SigningKeyView>, Seq<char>>,
    header: Result<(Seq<char>, Option<Seq<char>>), Seq<char>>,
) -> Result<(Seq<char>, Seq<char>), TokenErrorView> {
    match (keys, header) {
        (Err(reason), _) => Err(TokenErrorView::KeysUnreadable(reason)),
        (Ok(_), Err(reason)) => Err(TokenErrorView::HeaderUnreadable(reason)),
        (Ok(list), Ok((algorithm, kid))) => if algorithm != "RS256"@ {
            Err(TokenErrorView::NotRs256)
        } else {
            match kid {
                None => Err(TokenErrorView::MissingKid),
                Some(name) => match key_position_from(list, name, 0) {
                    None => Err(TokenErrorView::KeyNotFound),
                    Some(i) => if list[i].algorithm is Some && list[i].algorithm != Some(
                        "RS256"@,
                    ) {
                        Err(TokenErrorView::KeyNotRs256)
                    } else {
                        match list[i].rsa {
                            None => Err(TokenErrorView::KeyNotRsa),
                            Some(key) => Ok(key),
                        }
                    },
                },
            }
        },
    }
}

fn position_of_key(keys: &Vec<SigningKey>, kid: &str) -> (position: Option<usize>)
    ensures
        match position {
            Some(i) => i < keys@.len() && key_position_from(
                Seq::new(keys@.len(), |i: int| keys@[i]@),
                kid@,
                0,
            ) == Some(i as int),
            None => key_position_from(Seq::new(keys@.len(), |i: int| keys@[i]@), kid@, 0) is None,
        },
{
    let ghost views: Seq<SigningKeyView> = Seq::new(keys@.len(), |i: int| keys@[i]@);
    let mut i: usize = 0;
    while i < keys.len()
        invariant
            i <= keys.len(),
            views == Seq::new(keys@.len(), |i: int| keys@[i]@),
            key_position_from(views, kid@, 0) == key_position_from(views, kid@, i as int),
        decreases keys.len() - i,
    {
        assert(views[i as int] == keys@[i as int]@);
        match &keys[i].kid {
            Some(name) => if text::same_text(name.as_str(), kid) {
                return Some(i);
            },
            None => {},
        }
        i = i + 1;
    }
    None
}

/// The key that verifies a token, from the keys of the provider and the header of the token.
pub fn choose_key(
    keys: &Result<Vec<SigningKey>, String>,
    header: &Result<TokenHeader, String>,
) -> (result: Result<(String, String), TokenError>)
    ensures
        match key_choice(key_views(*keys), header_view(*header)) {
            Ok((modulus, exponent)) => result matches Ok(key) && key.0@ == modulus && key.1@
                == exponent,
            Err(fault) => result matches Err(error) && error@ == fault,
        },
{
    let list: &Vec<SigningKey> = match keys {
        Ok(list) => list,
        Err(reason) => {
            return Err(TokenError::KeysUnreadable(reason.clone()));
        },
    };
    let read: &TokenHeader = match header {
        Ok(read) => read,
        Err(reason) => {
            return Err(TokenError::HeaderUnreadable(reason.clone()));
        },
    };
    if !text::same_text(read.algorithm.as_str(), "RS256") {
        return Err(TokenError::NotRs256);
    }
    let kid: &String = match &read.kid {
        Some(kid) => kid,
        None => {
            return Err(TokenError::MissingKid);
        },
    };
    let position: usize = match position_of_key(list, kid.as_str()) {
        Some(position) => position,
        None => {
            return Err(TokenError::KeyNotFound);
        },
    };
    let key: &SigningKey = &list[position];
    assert(key_views(*keys)->Ok_0[position as int] == key@);
    match &key.algorithm {
        Some(algorithm) => if !text::same_text(algorithm.as_str(), "RS256") {
            return Err(TokenError::KeyNotRs256);
        },
        None => {},
    }
    match &key.rsa {
        Some((modulus, exponent)) => Ok((modulus.clone(), exponent.clone())),
        None => Err(TokenError::KeyNotRsa),
    }
}

/// The claims that an ID token must have.
pub open spec fn required_claims() -> Seq<Seq<char>> {
    seq!["aud"@, "exp"@, "iss"@, "sub"@]
}

/// The claims that an ID token must have.
pub fn required_claim_names() -> (names: Vec<&'static str>)
    ensures
        claim_names(names@) == required_claims(),
{
    let names: Vec<&'static str> = vec!["aud", "exp", "iss", "sub"];
    assert(claim_names(names@) =~= required_claims());
    names
}

/// The claims of an ID token that is valid at the time: the key signed it by RS256 for this client,
/// in the name of the configured issuer. `None` where it is not.
pub open spec fn accepted_at(
    cfg: EffectiveConfig,
    token: Seq<char>,
    key: (Seq<char>, Seq<char>),
    now: int,
) -> Option<JsonView> {
    decoded_at(
        token,
        "RS256"@,
        key.0,
        key.1,
        cfg.client_id@,
        cfg.issuer@,
        required_claims(),
        now,
    )
}

/// What holds of the claims of a token that was verified at the time: the provider's key signed
/// them, they come from the configured issuer for this client, and they have a subject and a time
/// of expiry that has not passed.
pub open spec fn claims_verified(
    claims: JsonView,
    cfg: EffectiveConfig,
    token: Seq<char>,
    key: (Seq<char>, Seq<char>),
    now: int,
) -> bool {
    &&& accepted_at(cfg, token, key, now) == Some(claims)
    &&& claims_text(claims.get("iss"@), cfg.issuer@)
    &&& claims_text(claims.get("aud"@), cfg.client_id@)
    &&& claims.text_field("sub"@) is Some
    &&& is_expiry(claims.get("exp"@))
    &&& unexpired(claims.get("exp"@), now)
}

/// The result is what the check of a token at the time comes to: its claims where it is valid then,
/// and a refusal where it is not.
pub open spec fn checked_at(
    result: Result<Json, TokenError>,
    cfg: EffectiveConfig,
    token: Seq<char>,
    key: (Seq<char>, Seq<char>),
    now: int,
) -> bool {
    match accepted_at(cfg, token, key, now) {
        Some(accepted) => result matches Ok(claims) && claims@ == accepted && claims_verified(
            claims@,
            cfg,
            token,
            key,
            now,
        ),
        None => result matches Err(error) && error is Unverified,
    }
}

/// The claims of an ID token, whose signature, issuer, audience and time of expiry are checked, at
/// the time that the machine's clock shows. `jwks` is the provider's JSON Web Key Set.
pub fn token_claims(cfg: &EffectiveConfig, jwks: &[u8], token: &str) -> (result: Result<
    Json,
    TokenError,
>)
    ensures
        match key_choice(jwk_set(jwks@), token_header(token@)) {
            Ok(key) => exists|now: int| #[trigger] checked_at(result, *cfg, token@, key, now),
            Err(fault) => result matches Err(error) && error@ == fault,
        },
{
    let keys: Result<Vec<SigningKey>, String> = parse_jwks(jwks);
    let header: Result<TokenHeader, String> = read_token_header(token);
    let key: (String, String) = match choose_key(&keys, &header) {
        Ok(key) => key,
        Err(fault) => {
            return Err(fault);
        },
    };
    let required: Vec<&'static str> = required_claim_names();
    let decoded: Result<Json, String> = decode_token(
        token,
        "RS256",
        (key.0.as_str(), key.1.as_str()),
        cfg.client_id.as_str(),
        cfg.issuer.as_str(),
        required.as_slice(),
    );
    let ghost view: Option<JsonView> = claims_view(decoded);
    let result: Result<Json, TokenError> = match decoded {
        Ok(claims) => Ok(claims),
        Err(reason) => Err(TokenError::Unverified(reason)),
    };
    proof {
        let names = required_claims();
        assert(names[0] == "aud"@ && names[1] == "exp"@ && names[2] == "iss"@ && names[3]
            == "sub"@);
        let now = choose|now: int|
            #[trigger] decoded_at(
                token@,
                "RS256"@,
                key.0@,
                key.1@,
                cfg.client_id@,
                cfg.issuer@,
                claim_names(required@),
                now,
            ) == view && (result matches Ok(read) ==> unexpired(read@.get("exp"@), now));
        assert(checked_at(result, *cfg, token@, (key.0@, key.1@), now));
    }
    result
}

// ---------------------------------------------------------------------------------------------
// Identities
// ---------------------------------------------------------------------------------------------

/// Who a user is to the provider.
#[derive(Clone, Debug, PartialEq, Eq)]
pub struct Identity {
    pub issuer: String,
    pub subject: String,
    pub email: String,
    pub name: String,
    pub given_name: String,
    pub family_name: String,
}

/// The text that a claim is, and an empty one where it is missing or no text.
pub open spec fn claimed(claims: JsonView, name: Seq<char>) -> Seq<char> {
    match claims.text_field(name) {
        Some(content) => content,
        None => Seq::empty(),
    }
}

/// The email address that the claims name, in lower case.
pub open spec fn email_claim(claims: JsonView) -> Seq<char> {
    text::unicode_lower(text::trim(claimed(claims, "email"@)))
}

/// The token is meant for this client: where it names the party that it was issued to, that is
/// this client, and where it has several audiences, it names that party.
pub open spec fn party_ok(claims: JsonView, client_id: Seq<char>) -> bool {
    match claims.text_field("azp"@) {
        Some(party) => party == client_id,
        None => !(claims.get("aud"@) matches Some(JsonView::Array(audiences)) && audiences.len()
            > 1),
    }
}

/// What is wrong with the claims, by the first rule that they break. `email_is_valid` says whether
/// the email address that they name is one.
pub open spec fn identity_fault(
    cfg: EffectiveConfig,
    claims: JsonView,
    nonce: Seq<char>,
    email_is_valid: bool,
) -> Option<TokenErrorView> {
    if claims.text_field("nonce"@) != Some(nonce) {
        Some(TokenErrorView::Nonce)
    } else if !party_ok(claims, cfg.client_id@) {
        Some(TokenErrorView::AuthorizedParty)
    } else if claims.get("email_verified"@) != Some(JsonView::Bool(true)) {
        Some(TokenErrorView::EmailUnverified)
    } else if cfg.required_role@.len() > 0 && !(claims.get(cfg.role_claim@) matches Some(role)
        && names_role(role, cfg.required_role@)) {
        Some(TokenErrorView::RoleMissing)
    } else if !email_is_valid {
        Some(TokenErrorView::EmailInvalid)
    } else if text::trim(claimed(claims, "sub"@)).len() == 0 {
        Some(TokenErrorView::SubjectMissing)
    } else {
        None
    }
}

/// The identity is the one that the claims name.
pub open spec fn identity_of(identity: Identity, cfg: EffectiveConfig, claims: JsonView) -> bool {
    &&& identity.issuer@ == cfg.issuer@
    &&& identity.subject@ == text::trim(claimed(claims, "sub"@))
    &&& identity.email@ == email_claim(claims)
    &&& identity.name@ == claimed(claims, "name"@)
    &&& identity.given_name@ == claimed(claims, "given_name"@)
    &&& identity.family_name@ == claimed(claims, "family_name"@)
}

fn claim_text<'a>(claims: &'a Json, name: &str) -> (content: &'a str)
    ensures
        content@ == claimed(claims@, name@),
{
    match claims.text_field(name) {
        Some(content) => content,
        None => {
            proof {
                reveal_strlit("");
                assert(""@ =~= Seq::<char>::empty());
            }
            ""
        },
    }
}

/// The email address that the claims name, in lower case.
pub fn claimed_email(claims: &Json) -> (email: String)
    ensures
        email@ == email_claim(claims@),
{
    text::to_unicode_lower(text::trimmed(claim_text(claims, "email")))
}

fn is_for_client(claims: &Json, client_id: &str) -> (is: bool)
    ensures
        is == party_ok(claims@, client_id@),
{
    match claims.text_field("azp") {
        Some(party) => text::same_text(party, client_id),
        None => match claims.get("aud") {
            Some(Json::Array(audiences)) => {
                proof {
                    json::lemma_array_view(*audiences);
                }
                audiences.len() <= 1
            },
            _ => true,
        },
    }
}

fn has_role(claims: &Json, role_claim: &str, role: &str) -> (has: bool)
    ensures
        has == (claims@.get(role_claim@) matches Some(value) && names_role(value, role@)),
{
    match claims.get(role_claim) {
        Some(value) => claim_contains(value, role),
        None => false,
    }
}

/// The identity that the claims of a verified token name. `email_is_valid` says whether
/// [`claimed_email`] is a valid address.
pub fn validate_id_token(
    cfg: &EffectiveConfig,
    claims: &Json,
    expected_nonce: &str,
    email_is_valid: bool,
) -> (result: Result<Identity, TokenError>)
    ensures
        match identity_fault(*cfg, claims@, expected_nonce@, email_is_valid) {
            Some(fault) => result matches Err(error) && error@ == fault,
            None => result matches Ok(identity) && identity_of(identity, *cfg, claims@),
        },
        // Where the nonce is the one of the login, the party decides first: `azp` alone where it
        // is a text, and else whether there is a second audience.
        (result matches Err(error) && error is AuthorizedParty) <==> claims@.get("nonce"@) == Some(
            JsonView::Text(expected_nonce@),
        ) && match claims@.get("azp"@) {
            Some(JsonView::Text(party)) => party != cfg.client_id@,
            _ => claims@.get("aud"@) matches Some(JsonView::Array(audiences)) && audiences.len()
                >= 2,
        },
{
    match claims.text_field("nonce") {
        Some(nonce) => if !text::same_text(nonce, expected_nonce) {
            return Err(TokenError::Nonce);
        },
        None => {
            return Err(TokenError::Nonce);
        },
    }
    if !is_for_client(claims, cfg.client_id.as_str()) {
        return Err(TokenError::AuthorizedParty);
    }
    match claims.get("email_verified") {
        Some(Json::Bool(true)) => {},
        _ => {
            return Err(TokenError::EmailUnverified);
        },
    }
    if cfg.required_role.as_str().unicode_len() > 0 && !has_role(
        claims,
        cfg.role_claim.as_str(),
        cfg.required_role.as_str(),
    ) {
        return Err(TokenError::RoleMissing);
    }
    if !email_is_valid {
        return Err(TokenError::EmailInvalid);
    }
    let subject: &str = text::trimmed(claim_text(claims, "sub"));
    if subject.unicode_len() == 0 {
        return Err(TokenError::SubjectMissing);
    }
    Ok(
        Identity {
            issuer: cfg.issuer.clone(),
            subject: subject.to_owned(),
            email: claimed_email(claims),
            name: claim_text(claims, "name").to_owned(),
            given_name: claim_text(claims, "given_name").to_owned(),
            family_name: claim_text(claims, "family_name").to_owned(),
        },
    )
}

impl TokenErrorView {
    /// What is wrong, in words.
    pub open spec fn message_text(self) -> Seq<char> {
        match self {
            TokenErrorView::KeysUnreadable(reason) => reason,
            TokenErrorView::HeaderUnreadable(reason) => reason,
            TokenErrorView::NotRs256 => "OIDC ID token must use RS256"@,
            TokenErrorView::MissingKid => "OIDC ID token is missing kid"@,
            TokenErrorView::KeyNotFound => "OIDC signing key was not found"@,
            TokenErrorView::KeyNotRs256 => "OIDC signing key algorithm is not RS256"@,
            TokenErrorView::KeyNotRsa => "OIDC signing key is not RSA"@,
            TokenErrorView::Unverified(reason) => reason,
            TokenErrorView::Nonce => "OIDC nonce validation failed"@,
            TokenErrorView::AuthorizedParty => "OIDC authorized party validation failed"@,
            TokenErrorView::EmailUnverified => "OIDC email is not verified"@,
            TokenErrorView::RoleMissing => "OIDC required role is missing"@,
            TokenErrorView::EmailInvalid => "OIDC email claim is missing or invalid"@,
            TokenErrorView::SubjectMissing => "OIDC subject claim is missing"@,
        }
    }
}

impl TokenError {
    /// What is wrong, in words.
    pub fn message(&self) -> (message: String)
        ensures
            message@ == self@.message_text(),
    {
        match self {
            TokenError::KeysUnreadable(reason) => reason.clone(),
            TokenError::HeaderUnreadable(reason) => reason.clone(),
            TokenError::NotRs256 => "OIDC ID token must use RS256".to_owned(),
            TokenError::MissingKid => "OIDC ID token is missing kid".to_owned(),
            TokenError::KeyNotFound => "OIDC signing key was not found".to_owned(),
            TokenError::KeyNotRs256 => "OIDC signing key algorithm is not RS256".to_owned(),
            TokenError::KeyNotRsa => "OIDC signing key is not RSA".to_owned(),
            TokenError::Unverified(reason) => reason.clone(),
            TokenError::Nonce => "OIDC nonce validation failed".to_owned(),
            TokenError::AuthorizedParty => "OIDC authorized party validation failed".to_owned(),
            TokenError::EmailUnverified => "OIDC email is not verified".to_owned(),
            TokenError::RoleMissing => "OIDC required role is missing".to_owned(),
            TokenError::EmailInvalid => "OIDC email claim is missing or invalid".to_owned(),
            TokenError::SubjectMissing => "OIDC subject claim is missing".to_owned(),
        }
    }
}

// ---------------------------------------------------------------------------------------------
// Laws
// ---------------------------------------------------------------------------------------------

/// A token is verified only by the algorithm RS256, and only with the RSA key of the provider that
/// its header names: the first with that name, which is for no other algorithm.
pub proof fn only_the_named_rsa_key_verifies(
    keys: Result<Seq<SigningKeyView>, Seq<char>>,
    header: Result<(Seq<char>, Option<Seq<char>>), Seq<char>>,
    key: (Seq<char>, Seq<char>),
)
    requires
        key_choice(keys, header) == Ok::<(Seq<char>, Seq<char>), TokenErrorView>(key),
    ensures
        keys matches Ok(list) && (header matches Ok((algorithm, Some(name))) && algorithm
            == "RS256"@ && exists|i: int| #[trigger]
            first_named(list, name, i) && list[i].rsa == Some(key) && (list[i].algorithm is None
                || list[i].algorithm == Some("RS256"@))),
{
    lemma_key_position(keys->Ok_0, header->Ok_0.1.unwrap(), 0);
}

/// The first key with the name is the one at `i`.
pub open spec fn first_named(keys: Seq<SigningKeyView>, kid: Seq<char>, i: int) -> bool {
    &&& 0 <= i < keys.len()
    &&& keys[i].kid == Some(kid)
    &&& forall|j: int| 0 <= j < i ==> (#[trigger] keys[j]).kid != Some(kid)
}

proof fn lemma_key_position(keys: Seq<SigningKeyView>, kid: Seq<char>, from: int)
    requires
        0 <= from,
        forall|j: int| 0 <= j < from && j < keys.len() ==> (#[trigger] keys[j]).kid != Some(kid),
    ensures
        key_position_from(keys, kid, from) matches Some(i) ==> first_named(keys, kid, i),
    decreases keys.len() - from,
{
    if from < keys.len() && keys[from].kid != Some(kid) {
        lemma_key_position(keys, kid, from + 1);
    }
}

/// Under a configuration that is in force, an identity is accepted only where the token names the
/// nonce of the login, was issued to this client, says that the email address is verified, and
/// names the required role; its subject is then not empty.
pub proof fn accepted_identities_meet_every_rule(
    cfg: EffectiveConfig,
    claims: JsonView,
    nonce: Seq<char>,
    email_is_valid: bool,
    identity: Identity,
)
    requires
        cfg.well_formed(),
        identity_fault(cfg, claims, nonce, email_is_valid) is None,
        identity_of(identity, cfg, claims),
    ensures
        claims.text_field("nonce"@) == Some(nonce),
        party_ok(claims, cfg.client_id@),
        claims.get("email_verified"@) == Some(JsonView::Bool(true)),
        claims.get(cfg.role_claim@) matches Some(role) && names_role(role, cfg.required_role@),
        email_is_valid,
        identity.subject@.len() > 0,
        identity.issuer@ == cfg.issuer@,
{
}

/// Who a token was issued to. Where `azp` is a text, it decides alone, whatever the audiences are:
/// the party is this client, or the token is refused. Where it is none, the token is refused for
/// its party exactly where `aud` is a list of more than one item.
pub proof fn the_authorized_party_decides(
    cfg: EffectiveConfig,
    claims: JsonView,
    nonce: Seq<char>,
    email_is_valid: bool,
)
    requires
        claims.get("nonce"@) == Some(JsonView::Text(nonce)),
    ensures
        claims.get("azp"@) == Some(JsonView::Text(cfg.client_id@)) ==> identity_fault(
            cfg,
            claims,
            nonce,
            email_is_valid,
        ) != Some(TokenErrorView::AuthorizedParty),
        claims.get("azp"@) matches Some(JsonView::Text(party)) ==> party != cfg.client_id@
            ==> identity_fault(cfg, claims, nonce, email_is_valid) == Some(
            TokenErrorView::AuthorizedParty,
        ),
        !(claims.get("azp"@) matches Some(JsonView::Text(_))) ==> (identity_fault(
            cfg,
            claims,
            nonce,
            email_is_valid,
        ) == Some(TokenErrorView::AuthorizedParty) <==> (claims.get("aud"@) matches Some(
            JsonView::Array(audiences),
        ) && audiences.len() >= 2)),
{
}

/// Claims that meet every rule are accepted: the nonce of the login, `azp` naming this client or,
/// without it, no second audience, a verified and valid email address, the required role, and a
/// subject with more to it than white space.
pub proof fn claims_that_meet_every_rule_are_accepted(
    cfg: EffectiveConfig,
    claims: JsonView,
    nonce: Seq<char>,
    subject: Seq<char>,
    role: JsonView,
    i: int,
)
    requires
        claims.get("nonce"@) == Some(JsonView::Text(nonce)),
        claims.get("azp"@) == Some(JsonView::Text(cfg.client_id@)) || (!(claims.get(
            "azp"@,
        ) matches Some(JsonView::Text(_))) && !(claims.get("aud"@) matches Some(
            JsonView::Array(audiences),
        ) && audiences.len() >= 2)),
        claims.get("email_verified"@) == Some(JsonView::Bool(true)),
        cfg.required_role@.len() == 0 || (claims.get(cfg.role_claim@) == Some(role) && names_role(
            role,
            cfg.required_role@,
        )),
        claims.get("sub"@) == Some(JsonView::Text(subject)),
        0 <= i < subject.len(),
        !text::white_space(subject[i]),
    ensures
        identity_fault(cfg, claims, nonce, true) is None,
{
    text::trimming_leaves_what_is_no_white_space(subject, i);
}

/// A rule that is broken is never passed over: the claims are refused, and by no later rule.
pub proof fn a_broken_rule_is_never_passed_over(
    cfg: EffectiveConfig,
    claims: JsonView,
    nonce: Seq<char>,
    email_is_valid: bool,
)
    ensures
        identity_fault(cfg, claims, nonce, email_is_valid) == Some(TokenErrorView::Nonce)
            <==> claims.get("nonce"@) != Some(JsonView::Text(nonce)),
        claims.get("email_verified"@) != Some(JsonView::Bool(true)) ==> (identity_fault(
            cfg,
            claims,
            nonce,
            email_is_valid,
        ) matches Some(fault) && (fault is Nonce || fault is AuthorizedParty
            || fault is EmailUnverified)),
        claims.get("email_verified"@) == Some(JsonView::Bool(true)) ==> identity_fault(
            cfg,
            claims,
            nonce,
            email_is_valid,
        ) != Some(TokenErrorView::EmailUnverified),
        cfg.required_role@.len() > 0 && claims.get(cfg.role_claim@) is None ==> (identity_fault(
            cfg,
            claims,
            nonce,
            email_is_valid,
        ) matches Some(fault) && (fault is Nonce || fault is AuthorizedParty
            || fault is EmailUnverified || fault is RoleMissing)),
        claims.get(cfg.role_claim@) matches Some(role) ==> cfg.required_role@.len() > 0
            && !names_role(role, cfg.required_role@) ==> (identity_fault(
            cfg,
            claims,
            nonce,
            email_is_valid,
        ) matches Some(fault) && (fault is Nonce || fault is AuthorizedParty
            || fault is EmailUnverified || fault is RoleMissing)),
        claims.get(cfg.role_claim@) matches Some(role) ==> names_role(role, cfg.required_role@)
            ==> identity_fault(cfg, claims, nonce, email_is_valid) != Some(
            TokenErrorView::RoleMissing,
        ),
        !email_is_valid ==> identity_fault(cfg, claims, nonce, email_is_valid) is Some
            && identity_fault(cfg, claims, nonce, email_is_valid) != Some(
            TokenErrorView::SubjectMissing,
        ),
        email_is_valid ==> identity_fault(cfg, claims, nonce, email_is_valid) != Some(
            TokenErrorView::EmailInvalid,
        ),
        !(claims.get("sub"@) matches Some(JsonView::Text(_))) ==> identity_fault(
            cfg,
            claims,
            nonce,
            email_is_valid,
        ) is Some,
        claims.get("sub"@) matches Some(JsonView::Text(subject)) ==> text::all_white(subject)
            ==> identity_fault(cfg, claims, nonce, email_is_valid) is Some,
        identity_fault(cfg, claims, nonce, email_is_valid) matches Some(fault) ==> (fault is Nonce
            || fault is AuthorizedParty || fault is EmailUnverified || fault is RoleMissing
            || fault is EmailInvalid || fault is SubjectMissing),
{
    let none = Seq::<char>::empty();
    text::trimming_takes_off_the_white_space_around(none, none, none);
    assert(none + none + none =~= none);
    if let Some(JsonView::Text(subject)) = claims.get("sub"@) {
        if text::all_white(subject) {
            text::trimming_takes_off_the_white_space_around(subject, none, none);
            assert(subject + none + none =~= subject);
        }
    }
}

/// An identity has what the claims say: the subject and the email address without the white space
/// around them, the address in lower case, and the names as they are.
pub proof fn an_identity_is_what_its_claims_say(
    identity: Identity,
    cfg: EffectiveConfig,
    claims: JsonView,
    before: Seq<char>,
    inner: Seq<char>,
    after: Seq<char>,
)
    requires
        identity_of(identity, cfg, claims),
        text::all_white(before),
        text::tight(inner),
        text::all_white(after),
    ensures
        claims.get("sub"@) == Some(JsonView::Text(before + inner + after)) ==> identity.subject@
            == inner,
        claims.get("email"@) == Some(JsonView::Text(before + inner + after)) ==> identity.email@
            == text::unicode_lower(inner),
        claims.get("name"@) matches Some(JsonView::Text(name)) ==> identity.name@ == name,
        claims.get("given_name"@) matches Some(JsonView::Text(name)) ==> identity.given_name@
            == name,
        claims.get("family_name"@) matches Some(JsonView::Text(name)) ==> identity.family_name@
            == name,
        !(claims.get("email"@) matches Some(JsonView::Text(_))) ==> identity.email@
            == text::unicode_lower(Seq::empty()),
        identity.email@ == email_claim(claims),
        !(claims.get("name"@) matches Some(JsonView::Text(_))) ==> identity.name@.len() == 0,
        !(claims.get("given_name"@) matches Some(JsonView::Text(_))) ==> identity.given_name@.len()
            == 0,
        !(claims.get("family_name"@) matches Some(JsonView::Text(_)))
            ==> identity.family_name@.len() == 0,
        identity.issuer@ == cfg.issuer@,
{
    text::trimming_takes_off_the_white_space_around(before, inner, after);
    let none = Seq::<char>::empty();
    text::trimming_takes_off_the_white_space_around(none, none, none);
    assert(none + none + none =~= none);
}

/// A role is named by a text that is the role; a list names what its parts name, in whatever order
/// they stand; an object names its keys and what its values name. Nothing else names a role.
pub proof fn roles_are_named_part_by_part(
    role: Seq<char>,
    content: Seq<char>,
    items: Seq<JsonView>,
    more: Seq<JsonView>,
    fields: Seq<(Seq<char>, JsonView)>,
    others: Seq<(Seq<char>, JsonView)>,
    key: Seq<char>,
    value: JsonView,
)
    ensures
        names_role(JsonView::Text(content), role) <==> content == role,
        !names_role(JsonView::Array(seq![]), role),
        names_role(JsonView::Array(seq![value]), role) <==> names_role(value, role),
        names_role(JsonView::Array(items + more), role) <==> names_role(
            JsonView::Array(items),
            role,
        ) || names_role(JsonView::Array(more), role),
        !names_role(JsonView::Object(seq![]), role),
        names_role(JsonView::Object(seq![(key, value)]), role) <==> key == role || names_role(
            value,
            role,
        ),
        names_role(JsonView::Object(fields + others), role) <==> names_role(
            JsonView::Object(fields),
            role,
        ) || names_role(JsonView::Object(others), role),
        value is Null || value is Bool || value is Unsigned || value is Negative || value is Float
            ==> !names_role(value, role),
{
    let empty_items: Seq<JsonView> = seq![];
    lemma_array_names(empty_items, role);
    lemma_array_names(seq![value], role);
    lemma_array_names(items, role);
    lemma_array_names(more, role);
    lemma_array_names(items + more, role);
    assert(seq![value][0] == value);
    let all = items + more;
    assert forall|i: int| 0 <= i < items.len() implies all[i] == #[trigger] items[i] by {}
    assert forall|i: int| 0 <= i < more.len() implies all[items.len() + i] == #[trigger] more[i] by {}
    assert forall|i: int| items.len() <= i < all.len() implies #[trigger] all[i] == more[i
        - items.len()] by {}
    let empty_fields: Seq<(Seq<char>, JsonView)> = seq![];
    lemma_object_names(empty_fields, role);
    lemma_object_names(seq![(key, value)], role);
    lemma_object_names(fields, role);
    lemma_object_names(others, role);
    lemma_object_names(fields + others, role);
    assert(seq![(key, value)][0] == (key, value));
    let whole = fields + others;
    assert forall|i: int| 0 <= i < fields.len() implies whole[i] == #[trigger] fields[i] by {}
    assert forall|i: int| 0 <= i < others.len() implies whole[fields.len() + i]
        == #[trigger] others[i] by {}
    assert forall|i: int| fields.len() <= i < whole.len() implies #[trigger] whole[i] == others[i
        - fields.len()] by {}
}

proof fn lemma_array_names(items: Seq<JsonView>, role: Seq<char>)
    ensures
        names_role(JsonView::Array(items), role) <==> exists|i: int|
            0 <= i < items.len() && names_role(#[trigger] items[i], role),
{
    if exists|i: int| 0 <= i < items.len() && names_role(#[trigger] items[i], role) {
        let i = choose|i: int| 0 <= i < items.len() && names_role(#[trigger] items[i], role);
        lemma_item_names_role(items, role, i);
    }
}

proof fn lemma_object_names(fields: Seq<(Seq<char>, JsonView)>, role: Seq<char>)
    ensures
        names_role(JsonView::Object(fields), role) <==> exists|i: int|
            0 <= i < fields.len() && ((#[trigger] fields[i]).0 == role || names_role(
                fields[i].1,
                role,
            )),
{
    if exists|i: int|
        0 <= i < fields.len() && ((#[trigger] fields[i]).0 == role || names_role(
            fields[i].1,
            role,
        )) {
        let i = choose|i: int|
            0 <= i < fields.len() && ((#[trigger] fields[i]).0 == role || names_role(
                fields[i].1,
                role,
            ));
        lemma_field_names_role(fields, role, i);
    }
}

/// The key that the header names verifies the token, wherever it stands among the keys: the first
/// of that name, where it is an RSA key that is for RS256 or for no algorithm in particular. Where
/// no key has the name, there is none; and a key that is for another algorithm, or no RSA key, is
/// not passed over for a later one of the same name.
pub proof fn the_named_rsa_key_verifies(
    before: Seq<SigningKeyView>,
    named: SigningKeyView,
    after: Seq<SigningKeyView>,
    kid: Seq<char>,
)
    requires
        named.kid == Some(kid),
        forall|i: int| 0 <= i < before.len() ==> (#[trigger] before[i]).kid != Some(kid),
    ensures
        key_choice(Ok(before), Ok(("RS256"@, Some(kid)))) == Err::<
            (Seq<char>, Seq<char>),
            TokenErrorView,
        >(TokenErrorView::KeyNotFound),
        named.algorithm is None || named.algorithm == Some("RS256"@) ==> (named.rsa matches Some(key)
            ==> key_choice(Ok(before.push(named) + after), Ok(("RS256"@, Some(kid)))) == Ok::<
            (Seq<char>, Seq<char>),
            TokenErrorView,
        >(key)),
        named.algorithm is None || named.algorithm == Some("RS256"@) ==> named.rsa is None
            ==> key_choice(Ok(before.push(named) + after), Ok(("RS256"@, Some(kid)))) == Err::<
            (Seq<char>, Seq<char>),
            TokenErrorView,
        >(TokenErrorView::KeyNotRsa),
        named.algorithm matches Some(other) ==> other != "RS256"@ ==> key_choice(
            Ok(before.push(named) + after),
            Ok(("RS256"@, Some(kid))),
        ) == Err::<(Seq<char>, Seq<char>), TokenErrorView>(TokenErrorView::KeyNotRs256),
{
    let list = before.push(named) + after;
    lemma_key_found(before, kid, 0, before.len() as int);
    assert forall|i: int| 0 <= i < before.len() implies (#[trigger] list[i]).kid != Some(kid) by {
        assert(list[i] == before[i]);
    }
    assert(list[before.len() as int] == named);
    lemma_key_found(list, kid, 0, before.len() as int);
}

proof fn lemma_key_found(keys: Seq<SigningKeyView>, kid: Seq<char>, from: int, at: int)
    requires
        0 <= from <= at <= keys.len(),
        forall|i: int| from <= i < at ==> (#[trigger] keys[i]).kid != Some(kid),
        at < keys.len() ==> keys[at].kid == Some(kid),
    ensures
        key_position_from(keys, kid, from) == if at < keys.len() {
            Some(at)
        } else {
            None
        },
    decreases at - from,
{
    if from < at {
        assert(keys[from].kid != Some(kid));
        lemma_key_found(keys, kid, from + 1, at);
    }
}

/// A token whose header, or whose provider's keys, cannot be read, that is signed by another
/// algorithm, or that names no key, is refused for that, whatever the rest is.
pub proof fn a_token_without_a_named_key_is_refused(
    keys: Seq<SigningKeyView>,
    header: Result<(Seq<char>, Option<Seq<char>>), Seq<char>>,
    algorithm: Seq<char>,
    kid: Option<Seq<char>>,
    reason: Seq<char>,
)
    ensures
        key_choice(Err(reason), header) == Err::<(Seq<char>, Seq<char>), TokenErrorView>(
            TokenErrorView::KeysUnreadable(reason),
        ),
        key_choice(Ok(keys), Err(reason)) == Err::<(Seq<char>, Seq<char>), TokenErrorView>(
            TokenErrorView::HeaderUnreadable(reason),
        ),
        algorithm != "RS256"@ ==> key_choice(Ok(keys), Ok((algorithm, kid))) == Err::<
            (Seq<char>, Seq<char>),
            TokenErrorView,
        >(TokenErrorView::NotRs256),
        key_choice(Ok(keys), Ok(("RS256"@, None))) == Err::<
            (Seq<char>, Seq<char>),
            TokenErrorView,
        >(TokenErrorView::MissingKid),
{
}

/// An ID token has to have an audience, a time of expiry, an issuer and a subject, and need have no
/// other claim.
pub proof fn four_claims_are_required(name: Seq<char>)
    ensures
        required_claims().contains(name) <==> (name == "iss"@ || name == "aud"@ || name == "exp"@
            || name == "sub"@),
{
    let names = required_claims();
    assert(names[0] == "aud"@ && names[1] == "exp"@ && names[2] == "iss"@ && names[3] == "sub"@);
}

/// The exchange of a code carries the code, the verifier of the login and the redirect URL, to the
/// token endpoint. The secret of the client goes with it exactly once, with the name of the client:
/// in a header or in the form, as configured.
pub proof fn an_exchange_carries_code_and_verifier(
    request: TokenRequest,
    cfg: EffectiveConfig,
    metadata: ProviderMetadata,
    code: Seq<char>,
    verifier: Seq<char>,
)
    requires
        exchanges_code(request, cfg, metadata, code, verifier),
    ensures
        request.endpoint@ == metadata.token_endpoint@,
        text::pair_views(request.form@).contains(("grant_type"@, "authorization_code"@)),
        text::pair_views(request.form@).contains(("code"@, code)),
        text::pair_views(request.form@).contains(("redirect_uri"@, cfg.redirect_url@)),
        text::pair_views(request.form@).contains(("code_verifier"@, verifier)),
        cfg.token_endpoint_auth_method@ == "client_secret_basic"@ <==> request.basic_auth is Some,
        request.basic_auth matches Some((name, password)) ==> name@ == cfg.client_id@ && password@
            == cfg.client_secret@ && request.form@.len() == 4,
        request.basic_auth is None ==> text::pair_views(request.form@).contains(
            ("client_id"@, cfg.client_id@),
        ) && text::pair_views(request.form@).contains(("client_secret"@, cfg.client_secret@))
            && request.form@.len() == 6,
{
    let form = text::pair_views(request.form@);
    assert(form[0] == ("grant_type"@, "authorization_code"@));
    assert(form[1] == ("code"@, code));
    assert(form[2] == ("redirect_uri"@, cfg.redirect_url@));
    assert(form[3] == ("code_verifier"@, verifier));
    if request.basic_auth is None {
        assert(form[4] == ("client_id"@, cfg.client_id@));
        assert(form[5] == ("client_secret"@, cfg.client_secret@));
    }
}

/// What is wrong with a token is said in words of its own; what could not be read or verified is
/// said in the words that it came with.
pub proof fn a_rejected_token_is_told_why(reason: Seq<char>)
    ensures
        TokenErrorView::KeysUnreadable(reason).message_text() == reason,
        TokenErrorView::HeaderUnreadable(reason).message_text() == reason,
        TokenErrorView::Unverified(reason).message_text() == reason,
        TokenErrorView::NotRs256.message_text() == "OIDC ID token must use RS256"@,
        TokenErrorView::MissingKid.message_text() == "OIDC ID token is missing kid"@,
        TokenErrorView::KeyNotFound.message_text() == "OIDC signing key was not found"@,
        TokenErrorView::KeyNotRs256.message_text() == "OIDC signing key algorithm is not RS256"@,
        TokenErrorView::KeyNotRsa.message_text() == "OIDC signing key is not RSA"@,
        TokenErrorView::Nonce.message_text() == "OIDC nonce validation failed"@,
        TokenErrorView::AuthorizedParty.message_text()
            == "OIDC authorized party validation failed"@,
        TokenErrorView::EmailUnverified.message_text() == "OIDC email is not verified"@,
        TokenErrorView::RoleMissing.message_text() == "OIDC required role is missing"@,
        TokenErrorView::EmailInvalid.message_text() == "OIDC email claim is missing or invalid"@,
        TokenErrorView::SubjectMissing.message_text() == "OIDC subject claim is missing"@,
{
}

} // verus!
