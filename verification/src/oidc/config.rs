//! The configuration of the integration and of the provider.

use crate::text;
use crate::text::Separator;
use vstd::prelude::*;
use vstd::string::*;

verus! {

/// The configuration as it was set.
#[derive(Clone, Debug)]
pub struct OidcSettings {
    pub enabled: bool,
    pub issuer: String,
    pub client_id: String,
    pub client_secret: String,
    pub client_secret_file: String,
    pub token_endpoint_auth_method: String,
    pub redirect_url: String,
    pub post_login_url: String,
    pub scopes: String,
    pub default_org: String,
    pub role_claim: String,
    pub required_role: String,
    pub session_max_age: i64,
    pub state_ttl: i64,
    pub insecure_allow_http: bool,
    pub cookie_secure_only: bool,
    pub web_url: String,
    pub base_uri: String,
}

/// The configuration that is in force.
#[derive(Clone, Debug)]
pub struct EffectiveConfig {
    pub issuer: String,
    pub client_id: String,
    pub client_secret: String,
    pub token_endpoint_auth_method: String,
    pub redirect_url: String,
    pub post_login_url: String,
    pub scopes: String,
    pub default_org: String,
    pub role_claim: String,
    pub required_role: String,
    pub session_max_age: i64,
    pub state_ttl: i64,
    pub insecure_allow_http: bool,
}

/// What a provider says of itself.
#[derive(Clone, Debug)]
pub struct ProviderMetadata {
    pub issuer: String,
    pub authorization_endpoint: String,
    pub token_endpoint: String,
    pub jwks_uri: String,
    pub token_endpoint_auth_methods_supported: Vec<String>,
}

/// Why a URL is not used. What cannot be parsed comes with the parser's reason.
#[derive(Clone, Debug, PartialEq, Eq)]
pub enum UrlError {
    Unparsable(String),
    NotHttps,
    NoHost,
}

/// What a [`UrlError`] stands for.
pub enum UrlErrorView {
    Unparsable(Seq<char>),
    NotHttps,
    NoHost,
}

impl View for UrlError {
    type V = UrlErrorView;

    open spec fn view(&self) -> UrlErrorView {
        match *self {
            UrlError::Unparsable(reason) => UrlErrorView::Unparsable(reason@),
            UrlError::NotHttps => UrlErrorView::NotHttps,
            UrlError::NoHost => UrlErrorView::NoHost,
        }
    }
}

/// Why the configuration is not in force. A file that could not be read comes with the reason.
#[derive(Clone, Debug, PartialEq, Eq)]
pub enum ConfigError {
    Disabled,
    MissingClient,
    TwoSecrets,
    SecretUnreadable(String),
    MissingSecret,
    MissingOrganization,
    MissingRole,
    MissingOpenidScope,
    LifetimeOutOfRange,
    UnsupportedAuthMethod,
    InsecureCookie,
    Url(UrlError),
}

/// What a [`ConfigError`] stands for.
pub enum ConfigErrorView {
    Disabled,
    MissingClient,
    TwoSecrets,
    SecretUnreadable(Seq<char>),
    MissingSecret,
    MissingOrganization,
    MissingRole,
    MissingOpenidScope,
    LifetimeOutOfRange,
    UnsupportedAuthMethod,
    InsecureCookie,
    Url(UrlErrorView),
}

impl View for ConfigError {
    type V = ConfigErrorView;

    open spec fn view(&self) -> ConfigErrorView {
        match *self {
            ConfigError::Disabled => ConfigErrorView::Disabled,
            ConfigError::MissingClient => ConfigErrorView::MissingClient,
            ConfigError::TwoSecrets => ConfigErrorView::TwoSecrets,
            ConfigError::SecretUnreadable(reason) => ConfigErrorView::SecretUnreadable(reason@),
            ConfigError::MissingSecret => ConfigErrorView::MissingSecret,
            ConfigError::MissingOrganization => ConfigErrorView::MissingOrganization,
            ConfigError::MissingRole => ConfigErrorView::MissingRole,
            ConfigError::MissingOpenidScope => ConfigErrorView::MissingOpenidScope,
            ConfigError::LifetimeOutOfRange => ConfigErrorView::LifetimeOutOfRange,
            ConfigError::UnsupportedAuthMethod => ConfigErrorView::UnsupportedAuthMethod,
            ConfigError::InsecureCookie => ConfigErrorView::InsecureCookie,
            ConfigError::Url(fault) => ConfigErrorView::Url(fault@),
        }
    }
}

/// Why a provider is not used.
#[derive(Clone, Debug, PartialEq, Eq)]
pub enum DiscoveryError {
    IssuerMismatch,
    AuthMethodNotAdvertised,
    Url(UrlError),
}

/// What a [`DiscoveryError`] stands for.
pub enum DiscoveryErrorView {
    IssuerMismatch,
    AuthMethodNotAdvertised,
    Url(UrlErrorView),
}

impl View for DiscoveryError {
    type V = DiscoveryErrorView;

    open spec fn view(&self) -> DiscoveryErrorView {
        match *self {
            DiscoveryError::IssuerMismatch => DiscoveryErrorView::IssuerMismatch,
            DiscoveryError::AuthMethodNotAdvertised => DiscoveryErrorView::AuthMethodNotAdvertised,
            DiscoveryError::Url(fault) => DiscoveryErrorView::Url(fault@),
        }
    }
}

// ---------------------------------------------------------------------------------------------
// URLs
// ---------------------------------------------------------------------------------------------

/// The scheme and the host of a URL; where the text is none, the reason.
pub uninterp spec fn url_parts(raw: Seq<char>) -> Result<
    (Seq<char>, Option<Seq<char>>),
    Seq<char>,
>;

/// The view of the scheme and the host of a URL, or of the reason why there are none.
pub open spec fn parts_view(parts: Result<(String, Option<String>), String>) -> Result<
    (Seq<char>, Option<Seq<char>>),
    Seq<char>,
> {
    match parts {
        Ok((scheme, host)) => Ok((scheme@, text::text_view(host))),
        Err(reason) => Err(reason@),
    }
}

/// `url::Url::parse` with `Url::scheme` and `Url::host_str`: the scheme and the host of a URL, or
/// the text of the error where the text is none.
#[verifier::external_body]
fn parse_url(raw: &str) -> (parts: Result<(String, Option<String>), String>)
    ensures
        parts_view(parts) == url_parts(raw@),
{
    let url = url::Url::parse(raw).map_err(|error| error.to_string())?;
    Ok((url.scheme().to_owned(), url.host_str().map(str::to_owned)))
}

/// What is wrong with a URL: it uses HTTPS, or HTTP where that is allowed, and has a host.
pub open spec fn parts_fault(
    parts: Result<(Seq<char>, Option<Seq<char>>), Seq<char>>,
    allow_http: bool,
) -> Option<UrlErrorView> {
    match parts {
        Err(reason) => Some(UrlErrorView::Unparsable(reason)),
        Ok((scheme, host)) => if scheme != "https"@ && !(allow_http && scheme == "http"@) {
            Some(UrlErrorView::NotHttps)
        } else if host is None {
            Some(UrlErrorView::NoHost)
        } else {
            None
        },
    }
}

/// What is wrong with the URL that a text is.
pub open spec fn url_fault(raw: Seq<char>, allow_http: bool) -> Option<UrlErrorView> {
    parts_fault(url_parts(raw), allow_http)
}

/// Checks the scheme and the host of a URL.
pub fn url_parts_allowed(
    parts: Result<(String, Option<String>), String>,
    allow_http: bool,
) -> (result: Result<(), UrlError>)
    ensures
        match parts_fault(parts_view(parts), allow_http) {
            None => result is Ok,
            Some(fault) => result matches Err(error) && error@ == fault,
        },
{
    match parts {
        Err(reason) => Err(UrlError::Unparsable(reason)),
        Ok((scheme, host)) => {
            if !text::same_text(scheme.as_str(), "https") && !(allow_http && text::same_text(
                scheme.as_str(),
                "http",
            )) {
                return Err(UrlError::NotHttps);
            }
            match host {
                Some(_) => Ok(()),
                None => Err(UrlError::NoHost),
            }
        },
    }
}

/// Checks that a text is a URL that uses HTTPS, or HTTP where that is allowed, and has a host.
pub fn public_url_is_allowed(raw: &str, allow_http: bool) -> (result: Result<(), UrlError>)
    ensures
        match url_fault(raw@, allow_http) {
            None => result is Ok,
            Some(fault) => result matches Err(error) && error@ == fault,
        },
{
    url_parts_allowed(parse_url(raw), allow_http)
}

impl UrlErrorView {
    /// What is wrong, in words.
    pub open spec fn message_text(self) -> Seq<char> {
        match self {
            UrlErrorView::Unparsable(reason) => reason,
            UrlErrorView::NotHttps => "OIDC URLs must use HTTPS"@,
            UrlErrorView::NoHost => "OIDC URL must include a host"@,
        }
    }
}

impl UrlError {
    /// What is wrong, in words.
    pub fn message(&self) -> (message: String)
        ensures
            message@ == self@.message_text(),
    {
        match self {
            UrlError::Unparsable(reason) => reason.clone(),
            UrlError::NotHttps => "OIDC URLs must use HTTPS".to_owned(),
            UrlError::NoHost => "OIDC URL must include a host".to_owned(),
        }
    }
}

// ---------------------------------------------------------------------------------------------
// The configuration
// ---------------------------------------------------------------------------------------------

/// A text without anything but white space.
pub open spec fn blank(s: Seq<char>) -> bool {
    text::trim(s).len() == 0
}

/// What is wrong before the file of the client secret is looked at.
pub open spec fn early_fault(settings: OidcSettings) -> Option<ConfigErrorView> {
    if !settings.enabled {
        Some(ConfigErrorView::Disabled)
    } else if blank(settings.issuer@) || blank(settings.client_id@) || blank(
        settings.redirect_url@,
    ) {
        Some(ConfigErrorView::MissingClient)
    } else if settings.client_secret@.len() > 0 && settings.client_secret_file@.len() > 0 {
        Some(ConfigErrorView::TwoSecrets)
    } else {
        None
    }
}

/// What came of reading a file, or why it was not read.
pub open spec fn read_view(file: Result<&str, &str>) -> Result<Seq<char>, Seq<char>> {
    match file {
        Ok(content) => Ok(content@),
        Err(reason) => Err(reason@),
    }
}

/// The client secret: from its file where one is set, else as it was set; where the file could not
/// be read, the reason.
pub open spec fn secret_value(settings: OidcSettings, file: Result<Seq<char>, Seq<char>>) -> Result<
    Seq<char>,
    Seq<char>,
> {
    if settings.client_secret_file@.len() > 0 {
        match file {
            Ok(content) => Ok(text::trim(content)),
            Err(reason) => Err(reason),
        }
    } else {
        Ok(text::trim(settings.client_secret@))
    }
}

/// Where the browser goes after the login: as it was set, else the page of the web interface for
/// that.
pub open spec fn post_login_target(settings: OidcSettings) -> Seq<char> {
    if settings.post_login_url@.len() == 0 {
        text::without_trailing(settings.web_url@, '/') + settings.base_uri@ + "/web/cb"@
    } else {
        settings.post_login_url@
    }
}

/// One of the two ways in which a client authenticates itself to the provider.
pub open spec fn known_auth_method(method: Seq<char>) -> bool {
    method == "client_secret_basic"@ || method == "client_secret_post"@
}

/// The lifetimes lie in their ranges.
pub open spec fn lifetimes_ok(session_max_age: i64, state_ttl: i64) -> bool {
    60 <= session_max_age <= 86_400 && 60 <= state_ttl <= 900
}

/// What is wrong with the configuration, by the first rule that it breaks.
pub open spec fn config_fault(
    settings: OidcSettings,
    file: Result<Seq<char>, Seq<char>>,
) -> Option<
    ConfigErrorView,
> {
    if early_fault(settings) is Some {
        early_fault(settings)
    } else if secret_value(settings, file) is Err {
        Some(ConfigErrorView::SecretUnreadable(secret_value(settings, file)->Err_0))
    } else if secret_value(settings, file)->Ok_0.len() == 0 {
        Some(ConfigErrorView::MissingSecret)
    } else if blank(settings.default_org@) {
        Some(ConfigErrorView::MissingOrganization)
    } else if blank(settings.required_role@) || blank(settings.role_claim@) {
        Some(ConfigErrorView::MissingRole)
    } else if !text::pieces(settings.scopes@, Separator::AsciiWhiteSpace).contains("openid"@) {
        Some(ConfigErrorView::MissingOpenidScope)
    } else if !lifetimes_ok(settings.session_max_age, settings.state_ttl) {
        Some(ConfigErrorView::LifetimeOutOfRange)
    } else if !known_auth_method(text::trim(settings.token_endpoint_auth_method@)) {
        Some(ConfigErrorView::UnsupportedAuthMethod)
    } else if !settings.insecure_allow_http && !settings.cookie_secure_only {
        Some(ConfigErrorView::InsecureCookie)
    } else {
        match url_fault(text::trim(settings.issuer@), settings.insecure_allow_http) {
            Some(fault) => Some(ConfigErrorView::Url(fault)),
            None => match url_fault(settings.redirect_url@, settings.insecure_allow_http) {
                Some(fault) => Some(ConfigErrorView::Url(fault)),
                None => match url_fault(
                    post_login_target(settings),
                    settings.insecure_allow_http,
                ) {
                    Some(fault) => Some(ConfigErrorView::Url(fault)),
                    None => None,
                },
            },
        }
    }
}

/// The configuration is the one that the settings come to.
pub open spec fn config_of(
    cfg: EffectiveConfig,
    settings: OidcSettings,
    file: Result<Seq<char>, Seq<char>>,
) -> bool {
    &&& cfg.issuer@ == text::trim(settings.issuer@)
    &&& cfg.client_id@ == text::trim(settings.client_id@)
    &&& secret_value(settings, file) == Ok::<Seq<char>, Seq<char>>(cfg.client_secret@)
    &&& cfg.token_endpoint_auth_method@ == text::trim(settings.token_endpoint_auth_method@)
    &&& cfg.redirect_url@ == text::trim(settings.redirect_url@)
    &&& cfg.post_login_url@ == post_login_target(settings)
    &&& cfg.scopes@ == text::trim(settings.scopes@)
    &&& cfg.default_org@ == text::replaced(text::trim(settings.default_org@), ' ', '_')
    &&& cfg.role_claim@ == text::trim(settings.role_claim@)
    &&& cfg.required_role@ == text::trim(settings.required_role@)
    &&& cfg.session_max_age == settings.session_max_age
    &&& cfg.state_ttl == settings.state_ttl
    &&& cfg.insecure_allow_http == settings.insecure_allow_http
}

impl EffectiveConfig {
    /// What holds of every configuration that is in force: its lifetimes lie in their ranges, a
    /// role is required, and the client has a secret.
    pub open spec fn well_formed(self) -> bool {
        &&& lifetimes_ok(self.session_max_age, self.state_ttl)
        &&& self.required_role@.len() > 0
        &&& self.client_secret@.len() > 0
    }
}

impl ConfigErrorView {
    /// What is wrong, in words.
    pub open spec fn message_text(self) -> Seq<char> {
        match self {
            ConfigErrorView::Disabled => "OIDC is disabled"@,
            ConfigErrorView::MissingClient =>
                "OIDC issuer, client ID, and redirect URL are required"@,
            ConfigErrorView::TwoSecrets =>
                "set only one of ZO_OIDC_CLIENT_SECRET or ZO_OIDC_CLIENT_SECRET_FILE"@,
            ConfigErrorView::SecretUnreadable(reason) =>
                "failed to read OIDC client secret file: "@ + reason,
            ConfigErrorView::MissingSecret => "OIDC client secret is required"@,
            ConfigErrorView::MissingOrganization => "OIDC default organization is required"@,
            ConfigErrorView::MissingRole => "OIDC role claim and required role must be configured"@,
            ConfigErrorView::MissingOpenidScope => "OIDC scopes must include openid"@,
            ConfigErrorView::LifetimeOutOfRange =>
                "OIDC session/state lifetime is outside the allowed range"@,
            ConfigErrorView::UnsupportedAuthMethod =>
                "unsupported OIDC token endpoint authentication method"@,
            ConfigErrorView::InsecureCookie =>
                "ZO_COOKIE_SECURE_ONLY must be true for production OIDC"@,
            ConfigErrorView::Url(fault) => fault.message_text(),
        }
    }
}

impl ConfigError {
    /// What is wrong, in words.
    pub fn message(&self) -> (message: String)
        ensures
            message@ == self@.message_text(),
    {
        let fixed: &str = match self {
            ConfigError::Disabled => "OIDC is disabled",
            ConfigError::MissingClient => "OIDC issuer, client ID, and redirect URL are required",
            ConfigError::TwoSecrets =>
                "set only one of ZO_OIDC_CLIENT_SECRET or ZO_OIDC_CLIENT_SECRET_FILE",
            ConfigError::SecretUnreadable(reason) => {
                return text::joined("failed to read OIDC client secret file: ", reason.as_str());
            },
            ConfigError::MissingSecret => "OIDC client secret is required",
            ConfigError::MissingOrganization => "OIDC default organization is required",
            ConfigError::MissingRole => "OIDC role claim and required role must be configured",
            ConfigError::MissingOpenidScope => "OIDC scopes must include openid",
            ConfigError::LifetimeOutOfRange =>
                "OIDC session/state lifetime is outside the allowed range",
            ConfigError::UnsupportedAuthMethod =>
                "unsupported OIDC token endpoint authentication method",
            ConfigError::InsecureCookie => "ZO_COOKIE_SECURE_ONLY must be true for production OIDC",
            ConfigError::Url(fault) => {
                return fault.message();
            },
        };
        fixed.to_owned()
    }
}

fn is_blank(content: &str) -> (is: bool)
    ensures
        is == blank(content@),
{
    text::trimmed(content).unicode_len() == 0
}

fn check_early(settings: &OidcSettings) -> (result: Result<(), ConfigError>)
    ensures
        match early_fault(*settings) {
            None => result is Ok,
            Some(fault) => result matches Err(error) && error@ == fault,
        },
{
    if !settings.enabled {
        return Err(ConfigError::Disabled);
    }
    if is_blank(settings.issuer.as_str()) || is_blank(settings.client_id.as_str()) || is_blank(
        settings.redirect_url.as_str(),
    ) {
        return Err(ConfigError::MissingClient);
    }
    if settings.client_secret.as_str().unicode_len() > 0
        && settings.client_secret_file.as_str().unicode_len() > 0 {
        return Err(ConfigError::TwoSecrets);
    }
    Ok(())
}

/// The file that the client secret is read from, where the settings come that far and set one.
pub fn secret_file_to_read(settings: &OidcSettings) -> (path: Option<String>)
    ensures
        path is Some <==> early_fault(*settings) is None && settings.client_secret_file@.len() > 0,
        path matches Some(read) ==> read@ == settings.client_secret_file@,
{
    if check_early(settings).is_ok() && settings.client_secret_file.as_str().unicode_len() > 0 {
        Some(settings.client_secret_file.clone())
    } else {
        None
    }
}

/// The configuration that the settings come to. `secret_file` is what the file of the client
/// secret holds, or why it was not read.
pub fn effective_config(settings: &OidcSettings, secret_file: Result<&str, &str>) -> (result: Result<
    EffectiveConfig,
    ConfigError,
>)
    ensures
        match config_fault(*settings, read_view(secret_file)) {
            Some(fault) => result matches Err(error) && error@ == fault,
            None => result matches Ok(cfg) && config_of(cfg, *settings, read_view(secret_file))
                && cfg.well_formed(),
        },
{
    match check_early(settings) {
        Ok(_) => {},
        Err(fault) => {
            return Err(fault);
        },
    }
    let client_secret: &str = if settings.client_secret_file.as_str().unicode_len() > 0 {
        match secret_file {
            Ok(content) => text::trimmed(content),
            Err(reason) => {
                return Err(ConfigError::SecretUnreadable(reason.to_owned()));
            },
        }
    } else {
        text::trimmed(settings.client_secret.as_str())
    };
    if client_secret.unicode_len() == 0 {
        return Err(ConfigError::MissingSecret);
    }
    if is_blank(settings.default_org.as_str()) {
        return Err(ConfigError::MissingOrganization);
    }
    if is_blank(settings.required_role.as_str()) || is_blank(settings.role_claim.as_str()) {
        return Err(ConfigError::MissingRole);
    }
    if !text::lists(
        &text::split_text(settings.scopes.as_str(), Separator::AsciiWhiteSpace),
        "openid",
    ) {
        return Err(ConfigError::MissingOpenidScope);
    }
    if settings.session_max_age < 60 || settings.session_max_age > 86_400 || settings.state_ttl < 60
        || settings.state_ttl > 900 {
        return Err(ConfigError::LifetimeOutOfRange);
    }
    let auth_method: &str = text::trimmed(settings.token_endpoint_auth_method.as_str());
    if !text::same_text(auth_method, "client_secret_basic") && !text::same_text(
        auth_method,
        "client_secret_post",
    ) {
        return Err(ConfigError::UnsupportedAuthMethod);
    }
    if !settings.insecure_allow_http && !settings.cookie_secure_only {
        return Err(ConfigError::InsecureCookie);
    }
    let issuer: &str = text::trimmed(settings.issuer.as_str());
    match public_url_is_allowed(issuer, settings.insecure_allow_http) {
        Ok(_) => {},
        Err(fault) => {
            return Err(ConfigError::Url(fault));
        },
    }
    match public_url_is_allowed(settings.redirect_url.as_str(), settings.insecure_allow_http) {
        Ok(_) => {},
        Err(fault) => {
            return Err(ConfigError::Url(fault));
        },
    }
    let post_login_url: String = if settings.post_login_url.as_str().unicode_len() == 0 {
        text::joined(
            text::strip_trailing(settings.web_url.as_str(), '/'),
            settings.base_uri.as_str(),
        ).concat("/web/cb")
    } else {
        settings.post_login_url.clone()
    };
    match public_url_is_allowed(post_login_url.as_str(), settings.insecure_allow_http) {
        Ok(_) => {},
        Err(fault) => {
            return Err(ConfigError::Url(fault));
        },
    }
    Ok(
        EffectiveConfig {
            issuer: issuer.to_owned(),
            client_id: text::trimmed(settings.client_id.as_str()).to_owned(),
            client_secret: client_secret.to_owned(),
            token_endpoint_auth_method: auth_method.to_owned(),
            redirect_url: text::trimmed(settings.redirect_url.as_str()).to_owned(),
            post_login_url,
            scopes: text::trimmed(settings.scopes.as_str()).to_owned(),
            default_org: text::replace_char(
                text::trimmed(settings.default_org.as_str()),
                ' ',
                '_',
            ),
            role_claim: text::trimmed(settings.role_claim.as_str()).to_owned(),
            required_role: text::trimmed(settings.required_role.as_str()).to_owned(),
            session_max_age: settings.session_max_age,
            state_ttl: settings.state_ttl,
            insecure_allow_http: settings.insecure_allow_http,
        },
    )
}

// ---------------------------------------------------------------------------------------------
// The provider
// ---------------------------------------------------------------------------------------------

/// Where a provider describes itself.
pub open spec fn discovery_target(cfg: EffectiveConfig) -> Seq<char> {
    text::without_trailing(cfg.issuer@, '/') + "/.well-known/openid-configuration"@
}

/// What is wrong with a provider: it is the configured issuer, it takes the configured way in
/// which the client authenticates itself where it says which it takes, and its endpoints are
/// proper URLs.
pub open spec fn discovery_fault(cfg: EffectiveConfig, metadata: ProviderMetadata) -> Option<
    DiscoveryErrorView,
> {
    if metadata.issuer@ != cfg.issuer@ {
        Some(DiscoveryErrorView::IssuerMismatch)
    } else if metadata.token_endpoint_auth_methods_supported@.len() > 0 && !text::texts(
        metadata.token_endpoint_auth_methods_supported@,
    ).contains(cfg.token_endpoint_auth_method@) {
        Some(DiscoveryErrorView::AuthMethodNotAdvertised)
    } else {
        match url_fault(metadata.authorization_endpoint@, cfg.insecure_allow_http) {
            Some(fault) => Some(DiscoveryErrorView::Url(fault)),
            None => match url_fault(metadata.token_endpoint@, cfg.insecure_allow_http) {
                Some(fault) => Some(DiscoveryErrorView::Url(fault)),
                None => match url_fault(metadata.jwks_uri@, cfg.insecure_allow_http) {
                    Some(fault) => Some(DiscoveryErrorView::Url(fault)),
                    None => None,
                },
            },
        }
    }
}

/// Where a provider describes itself.
pub fn discovery_url(cfg: &EffectiveConfig) -> (url: String)
    ensures
        url@ == discovery_target(*cfg),
{
    text::joined(
        text::strip_trailing(cfg.issuer.as_str(), '/'),
        "/.well-known/openid-configuration",
    )
}

/// Checks what a provider says of itself.
pub fn discover(cfg: &EffectiveConfig, metadata: ProviderMetadata) -> (result: Result<
    ProviderMetadata,
    DiscoveryError,
>)
    ensures
        match discovery_fault(*cfg, metadata) {
            Some(fault) => result matches Err(error) && error@ == fault,
            None => result == Ok::<ProviderMetadata, DiscoveryError>(metadata),
        },
        // The configured way may stand anywhere among those that are advertised.
        result is Ok ==> metadata.token_endpoint_auth_methods_supported@.len() == 0 || exists|i: int|
            0 <= i < metadata.token_endpoint_auth_methods_supported@.len() && (
            #[trigger] metadata.token_endpoint_auth_methods_supported@[i])@
                == cfg.token_endpoint_auth_method@,
        (result matches Err(error) && error is AuthMethodNotAdvertised) ==> forall|i: int|
            0 <= i < metadata.token_endpoint_auth_methods_supported@.len() ==> (
            #[trigger] metadata.token_endpoint_auth_methods_supported@[i])@
                != cfg.token_endpoint_auth_method@,
{
    proof {
        let list = metadata.token_endpoint_auth_methods_supported@;
        let views = text::texts(list);
        let method = cfg.token_endpoint_auth_method@;
        assert forall|i: int| 0 <= i < list.len() && (#[trigger] list[i])@ == method implies
            views.contains(method) by {
            assert(views[i] == method);
        }
        if views.contains(method) {
            let i = choose|i: int| 0 <= i < views.len() && views[i] == method;
            assert(list[i]@ == method);
        }
    }
    if !text::same_text(metadata.issuer.as_str(), cfg.issuer.as_str()) {
        return Err(DiscoveryError::IssuerMismatch);
    }
    if metadata.token_endpoint_auth_methods_supported.len() > 0 && !text::lists(
        &metadata.token_endpoint_auth_methods_supported,
        cfg.token_endpoint_auth_method.as_str(),
    ) {
        return Err(DiscoveryError::AuthMethodNotAdvertised);
    }
    match public_url_is_allowed(metadata.authorization_endpoint.as_str(), cfg.insecure_allow_http) {
        Ok(_) => {},
        Err(fault) => {
            return Err(DiscoveryError::Url(fault));
        },
    }
    match public_url_is_allowed(metadata.token_endpoint.as_str(), cfg.insecure_allow_http) {
        Ok(_) => {},
        Err(fault) => {
            return Err(DiscoveryError::Url(fault));
        },
    }
    match public_url_is_allowed(metadata.jwks_uri.as_str(), cfg.insecure_allow_http) {
        Ok(_) => {},
        Err(fault) => {
            return Err(DiscoveryError::Url(fault));
        },
    }
    Ok(metadata)
}

impl DiscoveryErrorView {
    /// What is wrong, in words.
    pub open spec fn message_text(self) -> Seq<char> {
        match self {
            DiscoveryErrorView::IssuerMismatch =>
                "OIDC discovery issuer does not match configured issuer"@,
            DiscoveryErrorView::AuthMethodNotAdvertised =>
                "configured token endpoint authentication method is not advertised"@,
            DiscoveryErrorView::Url(fault) => fault.message_text(),
        }
    }
}

impl DiscoveryError {
    /// What is wrong, in words.
    pub fn message(&self) -> (message: String)
        ensures
            message@ == self@.message_text(),
    {
        match self {
            DiscoveryError::IssuerMismatch =>
                "OIDC discovery issuer does not match configured issuer".to_owned(),
            DiscoveryError::AuthMethodNotAdvertised =>
                "configured token endpoint authentication method is not advertised".to_owned(),
            DiscoveryError::Url(fault) => fault.message(),
        }
    }
}

// ---------------------------------------------------------------------------------------------
// Laws
// ---------------------------------------------------------------------------------------------

/// Without the exception for plain HTTP, the URLs that are in use have the scheme `https` and a
/// host: the issuer and the post-login URL of the configuration, and the three endpoints of the
/// provider. The same holds of the redirect URL as it was set, and so of the one that is in use
/// where it was set without white space around it. Cookies are then sent over secure connections
/// only.
pub proof fn plain_http_is_never_used_by_default(
    settings: OidcSettings,
    file: Result<Seq<char>, Seq<char>>,
    cfg: EffectiveConfig,
    metadata: ProviderMetadata,
)
    requires
        !settings.insecure_allow_http,
        config_fault(settings, file) is None,
        config_of(cfg, settings, file),
        discovery_fault(cfg, metadata) is None,
    ensures
        uses_https(cfg.issuer@),
        uses_https(settings.redirect_url@),
        text::trim(settings.redirect_url@) == settings.redirect_url@ ==> uses_https(
            cfg.redirect_url@,
        ),
        uses_https(cfg.post_login_url@),
        uses_https(metadata.authorization_endpoint@),
        uses_https(metadata.token_endpoint@),
        uses_https(metadata.jwks_uri@),
        settings.cookie_secure_only,
{
}

/// The text is a URL with the scheme `https` and a host.
pub open spec fn uses_https(raw: Seq<char>) -> bool {
    url_parts(raw) matches Ok((scheme, host)) && scheme == "https"@ && host is Some
}

/// The text is a URL with a host, by HTTPS, or by HTTP where that is allowed.
pub open spec fn usable(raw: Seq<char>, allow_http: bool) -> bool {
    url_parts(raw) matches Ok((scheme, Some(_))) && (scheme == "https"@ || (allow_http && scheme
        == "http"@))
}

/// A URL is used exactly where it has a host and the scheme `https`, or `http` where that is
/// allowed. Whether HTTP is allowed makes no difference to any other scheme.
pub proof fn usable_urls_are_used(raw: Seq<char>, scheme: Seq<char>, host: Option<Seq<char>>)
    requires
        url_parts(raw) == Ok::<(Seq<char>, Option<Seq<char>>), Seq<char>>((scheme, host)),
    ensures
        url_fault(raw, false) is None <==> scheme == "https"@ && host is Some,
        url_fault(raw, true) is None <==> (scheme == "https"@ || scheme == "http"@) && host is Some,
        scheme != "http"@ ==> url_fault(raw, true) == url_fault(raw, false),
        scheme == "http"@ ==> url_fault(raw, false) == Some(UrlErrorView::NotHttps),
        scheme == "https"@ && host is None ==> url_fault(raw, false) == Some(UrlErrorView::NoHost),
{
    reveal_strlit("http");
    reveal_strlit("https");
    assert("http"@.len() == 4 && "https"@.len() == 5);
}

/// A provider that is the configured issuer and has usable endpoints is accepted where it does not
/// say how clients authenticate themselves, or where the configured way stands anywhere among those
/// that it takes. Where it takes others only, it is refused.
pub proof fn a_way_that_is_advertised_anywhere_is_taken(
    cfg: EffectiveConfig,
    metadata: ProviderMetadata,
)
    requires
        metadata.issuer@ == cfg.issuer@,
        usable(metadata.authorization_endpoint@, cfg.insecure_allow_http),
        usable(metadata.token_endpoint@, cfg.insecure_allow_http),
        usable(metadata.jwks_uri@, cfg.insecure_allow_http),
    ensures
        metadata.token_endpoint_auth_methods_supported@.len() == 0 ==> discovery_fault(
            cfg,
            metadata,
        ) is None,
        forall|i: int|
            0 <= i < metadata.token_endpoint_auth_methods_supported@.len() && (
            #[trigger] metadata.token_endpoint_auth_methods_supported@[i])@
                == cfg.token_endpoint_auth_method@ ==> discovery_fault(cfg, metadata) is None,
        metadata.token_endpoint_auth_methods_supported@.len() > 0 && (forall|i: int|
            0 <= i < metadata.token_endpoint_auth_methods_supported@.len() ==> (
            #[trigger] metadata.token_endpoint_auth_methods_supported@[i])@
                != cfg.token_endpoint_auth_method@) ==> discovery_fault(cfg, metadata) == Some(
            DiscoveryErrorView::AuthMethodNotAdvertised,
        ),
{
    let list = metadata.token_endpoint_auth_methods_supported@;
    let views = text::texts(list);
    let method = cfg.token_endpoint_auth_method@;
    assert forall|i: int| 0 <= i < list.len() && (#[trigger] list[i])@ == method implies
        discovery_fault(cfg, metadata) is None by {
        assert(views[i] == method);
    }
    if views.contains(method) {
        let i = choose|i: int| 0 <= i < views.len() && views[i] == method;
        assert(list[i]@ == method);
    }
}

/// In which order a provider lists the ways in which clients authenticate themselves makes no
/// difference, nor does how often it lists one.
pub proof fn the_order_of_what_is_advertised_is_indifferent(
    cfg: EffectiveConfig,
    a: ProviderMetadata,
    b: ProviderMetadata,
)
    requires
        a.issuer@ == b.issuer@,
        a.authorization_endpoint@ == b.authorization_endpoint@,
        a.token_endpoint@ == b.token_endpoint@,
        a.jwks_uri@ == b.jwks_uri@,
        text::texts(a.token_endpoint_auth_methods_supported@).to_set() == text::texts(
            b.token_endpoint_auth_methods_supported@,
        ).to_set(),
    ensures
        discovery_fault(cfg, a) == discovery_fault(cfg, b),
{
    let left = text::texts(a.token_endpoint_auth_methods_supported@);
    let right = text::texts(b.token_endpoint_auth_methods_supported@);
    let method = cfg.token_endpoint_auth_method@;
    assert(left.to_set().contains(method) == left.contains(method));
    assert(right.to_set().contains(method) == right.contains(method));
    if left.len() > 0 {
        assert(left.contains(left[0]));
        assert(right.to_set().contains(left[0]));
    }
    if right.len() > 0 {
        assert(right.contains(right[0]));
        assert(left.to_set().contains(right[0]));
    }
}

/// Advertising more ways beside the configured one keeps a provider accepted.
pub proof fn advertising_more_keeps_a_provider(
    cfg: EffectiveConfig,
    a: ProviderMetadata,
    b: ProviderMetadata,
    more: Seq<Seq<char>>,
)
    requires
        a.issuer@ == b.issuer@,
        a.authorization_endpoint@ == b.authorization_endpoint@,
        a.token_endpoint@ == b.token_endpoint@,
        a.jwks_uri@ == b.jwks_uri@,
        a.token_endpoint_auth_methods_supported@.len() > 0,
        discovery_fault(cfg, a) is None,
        text::texts(b.token_endpoint_auth_methods_supported@) == text::texts(
            a.token_endpoint_auth_methods_supported@,
        ) + more || text::texts(b.token_endpoint_auth_methods_supported@) == more + text::texts(
            a.token_endpoint_auth_methods_supported@,
        ),
    ensures
        discovery_fault(cfg, b) is None,
{
    let left = text::texts(a.token_endpoint_auth_methods_supported@);
    let right = text::texts(b.token_endpoint_auth_methods_supported@);
    let i = choose|i: int| 0 <= i < left.len() && left[i] == cfg.token_endpoint_auth_method@;
    if right == left + more {
        assert(right[i] == left[i]);
    } else {
        assert(right[more.len() + i] == left[i]);
    }
}

/// A provider with another issuer, or with an endpoint that is no usable URL, is refused, and so is
/// one that advertises ways without the configured one.
pub proof fn an_unfit_provider_is_refused(cfg: EffectiveConfig, metadata: ProviderMetadata)
    ensures
        discovery_fault(cfg, metadata) == Some(DiscoveryErrorView::IssuerMismatch)
            <==> metadata.issuer@ != cfg.issuer@,
        !usable(metadata.authorization_endpoint@, cfg.insecure_allow_http) ==> discovery_fault(
            cfg,
            metadata,
        ) is Some,
        !usable(metadata.token_endpoint@, cfg.insecure_allow_http) ==> discovery_fault(
            cfg,
            metadata,
        ) is Some,
        !usable(metadata.jwks_uri@, cfg.insecure_allow_http) ==> discovery_fault(
            cfg,
            metadata,
        ) is Some,
        metadata.token_endpoint_auth_methods_supported@.len() > 0 && (forall|i: int|
            0 <= i < metadata.token_endpoint_auth_methods_supported@.len() ==> (
            #[trigger] metadata.token_endpoint_auth_methods_supported@[i])@
                != cfg.token_endpoint_auth_method@) ==> discovery_fault(cfg, metadata) is Some,
{
    let list = metadata.token_endpoint_auth_methods_supported@;
    let views = text::texts(list);
    if views.contains(cfg.token_endpoint_auth_method@) {
        let i = choose|i: int| 0 <= i < views.len() && views[i] == cfg.token_endpoint_auth_method@;
        assert(list[i]@ == cfg.token_endpoint_auth_method@);
    }
}

/// A provider describes itself under its issuer, with one slash between, however many slashes the
/// issuer ends with.
pub proof fn a_provider_describes_itself_under_its_issuer(
    cfg: EffectiveConfig,
    issuer: Seq<char>,
    slashes: nat,
)
    requires
        cfg.issuer@ == issuer + Seq::new(slashes, |i: int| '/'),
        issuer.len() > 0 ==> issuer[issuer.len() - 1] != '/',
    ensures
        discovery_target(cfg) == issuer + "/.well-known/openid-configuration"@,
{
    text::a_trailing_run_comes_off(issuer, '/', slashes);
}

/// The text has a character that is no white space.
pub open spec fn has_content(s: Seq<char>) -> bool {
    exists|i: int| 0 <= i < s.len() && !text::white_space(#[trigger] s[i])
}

/// The scopes are asked for with `openid` among them, between white space or at an end.
pub open spec fn asks_for_openid(scopes: Seq<char>, before: Seq<char>, after: Seq<char>) -> bool {
    &&& scopes == before + "openid"@ + after
    &&& before.len() > 0 ==> text::ascii_white_space(before[before.len() - 1])
    &&& after.len() > 0 ==> text::ascii_white_space(after[0])
}

proof fn lemma_content(s: Seq<char>)
    ensures
        has_content(s) <==> !blank(s),
{
    if has_content(s) {
        let i = choose|i: int| 0 <= i < s.len() && !text::white_space(#[trigger] s[i]);
        text::trimming_leaves_what_is_no_white_space(s, i);
    } else {
        let none = Seq::<char>::empty();
        text::trimming_takes_off_the_white_space_around(s, none, none);
        assert(s + none + none =~= s);
    }
}

proof fn lemma_openid(scopes: Seq<char>, before: Seq<char>, after: Seq<char>)
    requires
        asks_for_openid(scopes, before, after),
    ensures
        text::pieces(scopes, Separator::AsciiWhiteSpace).contains("openid"@),
{
    let by = Separator::AsciiWhiteSpace;
    let word = "openid"@;
    reveal_strlit("openid");
    text::a_text_without_separators_is_one_piece(word, by);
    let tail = word + after;
    if after.len() > 0 {
        let rest = after.drop_first();
        text::pieces_join(word, after[0], rest, by);
        assert(word + seq![after[0]] + rest =~= tail);
        assert(text::pieces(tail, by)[0] == word);
    } else {
        assert(tail =~= word);
        assert(text::pieces(tail, by)[0] == word);
    }
    text::lemma_pieces_nonempty(tail, by);
    if before.len() > 0 {
        let head = before.drop_last();
        text::pieces_join(head, before[before.len() - 1], tail, by);
        assert(head + seq![before[before.len() - 1]] + tail =~= scopes);
        let all = text::pieces(scopes, by);
        assert(all[text::pieces(head, by).len() as int] == word);
    } else {
        assert(scopes =~= tail);
        assert(text::pieces(scopes, by)[0] == word);
    }
}

/// Settings that meet every rule are in force. The secret is set, or stands in a file that could be
/// read, and not both.
pub proof fn settings_that_meet_every_rule_are_in_force(
    settings: OidcSettings,
    file: Result<Seq<char>, Seq<char>>,
    before: Seq<char>,
    after: Seq<char>,
)
    requires
        settings.enabled,
        has_content(settings.issuer@),
        has_content(settings.client_id@),
        has_content(settings.redirect_url@),
        (settings.client_secret_file@.len() == 0 && has_content(settings.client_secret@)) || (
        settings.client_secret@.len() == 0 && settings.client_secret_file@.len() > 0 && (
        file matches Ok(content) && has_content(content))),
        has_content(settings.default_org@),
        has_content(settings.required_role@),
        has_content(settings.role_claim@),
        asks_for_openid(settings.scopes@, before, after),
        60 <= settings.session_max_age <= 86_400,
        60 <= settings.state_ttl <= 900,
        text::trim(settings.token_endpoint_auth_method@) == "client_secret_basic"@ || text::trim(
            settings.token_endpoint_auth_method@,
        ) == "client_secret_post"@,
        settings.insecure_allow_http || settings.cookie_secure_only,
        usable(text::trim(settings.issuer@), settings.insecure_allow_http),
        usable(settings.redirect_url@, settings.insecure_allow_http),
        usable(post_login_target(settings), settings.insecure_allow_http),
    ensures
        config_fault(settings, file) is None,
{
    lemma_content(settings.issuer@);
    lemma_content(settings.client_id@);
    lemma_content(settings.redirect_url@);
    lemma_content(settings.client_secret@);
    lemma_content(settings.default_org@);
    lemma_content(settings.required_role@);
    lemma_content(settings.role_claim@);
    if let Ok(content) = file {
        lemma_content(content);
    }
    lemma_openid(settings.scopes@, before, after);
}

/// Settings that break a rule are not in force.
pub proof fn settings_that_break_a_rule_are_not_in_force(
    settings: OidcSettings,
    file: Result<Seq<char>, Seq<char>>,
)
    requires
        config_fault(settings, file) is None,
    ensures
        settings.enabled,
        has_content(settings.issuer@),
        has_content(settings.client_id@),
        has_content(settings.redirect_url@),
        (settings.client_secret_file@.len() == 0 && has_content(settings.client_secret@)) || (
        settings.client_secret@.len() == 0 && settings.client_secret_file@.len() > 0 && (
        file matches Ok(content) && has_content(content))),
        has_content(settings.default_org@),
        has_content(settings.required_role@),
        has_content(settings.role_claim@),
        text::pieces(settings.scopes@, Separator::AsciiWhiteSpace).contains("openid"@),
        60 <= settings.session_max_age <= 86_400,
        60 <= settings.state_ttl <= 900,
        text::trim(settings.token_endpoint_auth_method@) == "client_secret_basic"@ || text::trim(
            settings.token_endpoint_auth_method@,
        ) == "client_secret_post"@,
        settings.insecure_allow_http || settings.cookie_secure_only,
        usable(text::trim(settings.issuer@), settings.insecure_allow_http),
        usable(settings.redirect_url@, settings.insecure_allow_http),
        usable(post_login_target(settings), settings.insecure_allow_http),
{
    lemma_content(settings.issuer@);
    lemma_content(settings.client_id@);
    lemma_content(settings.redirect_url@);
    lemma_content(settings.client_secret@);
    lemma_content(settings.default_org@);
    lemma_content(settings.required_role@);
    lemma_content(settings.role_claim@);
    if let Ok(content) = file {
        lemma_content(content);
    }
}

/// A rule is named only where the settings break it.
pub proof fn only_a_broken_rule_is_named(
    settings: OidcSettings,
    file: Result<Seq<char>, Seq<char>>,
)
    ensures
        config_fault(settings, file) is Some && config_fault(settings, file)->Some_0 is Disabled
            <==> !settings.enabled,
        settings.enabled && (!has_content(settings.issuer@) || !has_content(settings.client_id@)
            || !has_content(settings.redirect_url@)) ==> config_fault(settings, file) == Some(
            ConfigErrorView::MissingClient,
        ),
        config_fault(settings, file) == Some(ConfigErrorView::MissingClient) ==> !has_content(
            settings.issuer@,
        ) || !has_content(settings.client_id@) || !has_content(settings.redirect_url@),
        config_fault(settings, file) == Some(ConfigErrorView::TwoSecrets)
            ==> settings.client_secret@.len() > 0 && settings.client_secret_file@.len() > 0,
        config_fault(settings, file) matches Some(ConfigErrorView::SecretUnreadable(reason))
            ==> settings.client_secret_file@.len() > 0 && file == Err::<Seq<char>, Seq<char>>(
            reason,
        ),
        config_fault(settings, file) == Some(ConfigErrorView::MissingSecret) ==> !has_content(
            settings.client_secret@,
        ) && (settings.client_secret_file@.len() > 0 ==> (file matches Ok(content) && !has_content(
            content,
        ))),
        config_fault(settings, file) == Some(ConfigErrorView::MissingOrganization) ==> !has_content(
            settings.default_org@,
        ),
        config_fault(settings, file) == Some(ConfigErrorView::MissingRole) ==> !has_content(
            settings.required_role@,
        ) || !has_content(settings.role_claim@),
        config_fault(settings, file) == Some(ConfigErrorView::MissingOpenidScope) ==> forall|
            before: Seq<char>,
            after: Seq<char>,
        | !#[trigger] asks_for_openid(settings.scopes@, before, after),
        config_fault(settings, file) == Some(ConfigErrorView::LifetimeOutOfRange) ==> !(60
            <= settings.session_max_age <= 86_400) || !(60 <= settings.state_ttl <= 900),
        config_fault(settings, file) == Some(ConfigErrorView::UnsupportedAuthMethod) ==> text::trim(
            settings.token_endpoint_auth_method@,
        ) != "client_secret_basic"@ && text::trim(settings.token_endpoint_auth_method@)
            != "client_secret_post"@,
        config_fault(settings, file) == Some(ConfigErrorView::InsecureCookie)
            ==> !settings.cookie_secure_only && !settings.insecure_allow_http,
        config_fault(settings, file) matches Some(ConfigErrorView::Url(_)) ==> !usable(
            text::trim(settings.issuer@),
            settings.insecure_allow_http,
        ) || !usable(settings.redirect_url@, settings.insecure_allow_http) || !usable(
            post_login_target(settings),
            settings.insecure_allow_http,
        ),
{
    lemma_content(settings.issuer@);
    lemma_content(settings.client_id@);
    lemma_content(settings.redirect_url@);
    lemma_content(settings.client_secret@);
    lemma_content(settings.default_org@);
    lemma_content(settings.required_role@);
    lemma_content(settings.role_claim@);
    if let Ok(content) = file {
        lemma_content(content);
    }
    assert forall|before: Seq<char>, after: Seq<char>| #[trigger]
        asks_for_openid(settings.scopes@, before, after) implies config_fault(settings, file)
        != Some(ConfigErrorView::MissingOpenidScope) by {
        lemma_openid(settings.scopes@, before, after);
    }
}

/// The place of a rule in the order in which the rules are looked at.
pub open spec fn place(fault: ConfigErrorView) -> int {
    match fault {
        ConfigErrorView::Disabled => 1,
        ConfigErrorView::MissingClient => 2,
        ConfigErrorView::TwoSecrets => 3,
        ConfigErrorView::SecretUnreadable(_) => 4,
        ConfigErrorView::MissingSecret => 5,
        ConfigErrorView::MissingOrganization => 6,
        ConfigErrorView::MissingRole => 7,
        ConfigErrorView::MissingOpenidScope => 8,
        ConfigErrorView::LifetimeOutOfRange => 9,
        ConfigErrorView::UnsupportedAuthMethod => 10,
        ConfigErrorView::InsecureCookie => 11,
        ConfigErrorView::Url(_) => 12,
    }
}

/// The settings break a rule at the place or before it, and that is named.
pub open spec fn named_by(
    settings: OidcSettings,
    file: Result<Seq<char>, Seq<char>>,
    last: int,
) -> bool {
    config_fault(settings, file) matches Some(fault) && place(fault) <= last
}

/// A rule that is broken is never passed over for a later one: whether the integration is enabled
/// comes first, and then who the client is, its secret, the organization, the role, the scopes, the
/// lifetimes, how the client authenticates itself, the cookies, and the URLs.
pub proof fn a_broken_rule_is_named_before_later_ones(
    settings: OidcSettings,
    file: Result<Seq<char>, Seq<char>>,
)
    ensures
        !settings.enabled ==> named_by(settings, file, 1),
        !has_content(settings.issuer@) || !has_content(settings.client_id@) || !has_content(
            settings.redirect_url@,
        ) ==> named_by(settings, file, 2),
        settings.client_secret@.len() > 0 && settings.client_secret_file@.len() > 0 ==> named_by(
            settings,
            file,
            3,
        ),
        settings.client_secret_file@.len() > 0 && file is Err ==> named_by(settings, file, 4),
        settings.client_secret_file@.len() > 0 ==> (file matches Ok(content) ==> !has_content(
            content,
        ) ==> named_by(settings, file, 5)),
        settings.client_secret_file@.len() == 0 && !has_content(settings.client_secret@)
            ==> named_by(settings, file, 5),
        !has_content(settings.default_org@) ==> named_by(settings, file, 6),
        !has_content(settings.required_role@) || !has_content(settings.role_claim@) ==> named_by(
            settings,
            file,
            7,
        ),
        !text::pieces(settings.scopes@, Separator::AsciiWhiteSpace).contains("openid"@) ==> named_by(
            settings,
            file,
            8,
        ),
        !(60 <= settings.session_max_age <= 86_400) || !(60 <= settings.state_ttl <= 900)
            ==> named_by(settings, file, 9),
        text::trim(settings.token_endpoint_auth_method@) != "client_secret_basic"@ && text::trim(
            settings.token_endpoint_auth_method@,
        ) != "client_secret_post"@ ==> named_by(settings, file, 10),
        !settings.cookie_secure_only && !settings.insecure_allow_http ==> named_by(
            settings,
            file,
            11,
        ),
{
    lemma_content(settings.issuer@);
    lemma_content(settings.client_id@);
    lemma_content(settings.redirect_url@);
    lemma_content(settings.client_secret@);
    lemma_content(settings.default_org@);
    lemma_content(settings.required_role@);
    lemma_content(settings.role_claim@);
    if let Ok(content) = file {
        lemma_content(content);
    }
}

/// Settings that are in force stay so whatever the lifetimes are within their ranges, and with no
/// others.
pub proof fn lifetimes_are_free_within_their_ranges(
    settings: OidcSettings,
    file: Result<Seq<char>, Seq<char>>,
    session_max_age: i64,
    state_ttl: i64,
)
    requires
        config_fault(settings, file) is None,
    ensures
        config_fault(OidcSettings { session_max_age, state_ttl, ..settings }, file) is None
            <==> 60 <= session_max_age <= 86_400 && 60 <= state_ttl <= 900,
{
}

/// The configuration has what the settings say, without the white space around it. Its secret is
/// the one that is set, or the one in the file where a file is set.
pub proof fn a_configuration_is_what_its_settings_say(
    cfg: EffectiveConfig,
    settings: OidcSettings,
    file: Result<Seq<char>, Seq<char>>,
    before: Seq<char>,
    inner: Seq<char>,
    after: Seq<char>,
)
    requires
        config_of(cfg, settings, file),
        text::all_white(before),
        text::tight(inner),
        text::all_white(after),
    ensures
        settings.issuer@ == before + inner + after ==> cfg.issuer@ == inner,
        settings.client_id@ == before + inner + after ==> cfg.client_id@ == inner,
        settings.token_endpoint_auth_method@ == before + inner + after
            ==> cfg.token_endpoint_auth_method@ == inner,
        settings.redirect_url@ == before + inner + after ==> cfg.redirect_url@ == inner,
        settings.scopes@ == before + inner + after ==> cfg.scopes@ == inner,
        settings.role_claim@ == before + inner + after ==> cfg.role_claim@ == inner,
        settings.required_role@ == before + inner + after ==> cfg.required_role@ == inner,
        settings.client_secret_file@.len() == 0 && settings.client_secret@ == before + inner + after
            ==> cfg.client_secret@ == inner,
        settings.client_secret_file@.len() > 0 && file == Ok::<Seq<char>, Seq<char>>(
            before + inner + after,
        ) ==> cfg.client_secret@ == inner,
        settings.default_org@ == before + inner + after ==> cfg.default_org@.len() == inner.len()
            && forall|i: int|
            0 <= i < inner.len() ==> (#[trigger] cfg.default_org@[i]) == if inner[i] == ' ' {
                '_'
            } else {
                inner[i]
            },
        settings.post_login_url@.len() > 0 ==> cfg.post_login_url@ == settings.post_login_url@,
        cfg.session_max_age == settings.session_max_age,
        cfg.state_ttl == settings.state_ttl,
        cfg.insecure_allow_http == settings.insecure_allow_http,
{
    text::trimming_takes_off_the_white_space_around(before, inner, after);
}

/// Where no page is set, the browser goes to the page of the web interface after the login, with
/// one slash behind the address, however many that ends with.
pub proof fn the_browser_lands_on_the_web_interface(
    settings: OidcSettings,
    address: Seq<char>,
    slashes: nat,
)
    requires
        settings.post_login_url@.len() == 0,
        settings.web_url@ == address + Seq::new(slashes, |i: int| '/'),
        address.len() > 0 ==> address[address.len() - 1] != '/',
    ensures
        post_login_target(settings) == address + settings.base_uri@ + "/web/cb"@,
{
    text::a_trailing_run_comes_off(address, '/', slashes);
}

/// What is wrong with the settings or with a provider is said in words of its own; what could not be
/// parsed or read is said in the words that it came with, and a URL says the same wherever it stands.
pub proof fn what_is_wrong_is_said_in_words(reason: Seq<char>, fault: UrlErrorView)
    ensures
        UrlErrorView::Unparsable(reason).message_text() == reason,
        UrlErrorView::NotHttps.message_text() == "OIDC URLs must use HTTPS"@,
        UrlErrorView::NoHost.message_text() == "OIDC URL must include a host"@,
        ConfigErrorView::Url(fault).message_text() == fault.message_text(),
        DiscoveryErrorView::Url(fault).message_text() == fault.message_text(),
        DiscoveryErrorView::IssuerMismatch.message_text()
            == "OIDC discovery issuer does not match configured issuer"@,
        DiscoveryErrorView::AuthMethodNotAdvertised.message_text()
            == "configured token endpoint authentication method is not advertised"@,
        ConfigErrorView::SecretUnreadable(reason).message_text()
            == "failed to read OIDC client secret file: "@ + reason,
        ConfigErrorView::Disabled.message_text() == "OIDC is disabled"@,
        ConfigErrorView::MissingClient.message_text()
            == "OIDC issuer, client ID, and redirect URL are required"@,
        ConfigErrorView::TwoSecrets.message_text()
            == "set only one of ZO_OIDC_CLIENT_SECRET or ZO_OIDC_CLIENT_SECRET_FILE"@,
        ConfigErrorView::MissingSecret.message_text() == "OIDC client secret is required"@,
        ConfigErrorView::MissingOrganization.message_text()
            == "OIDC default organization is required"@,
        ConfigErrorView::MissingRole.message_text()
            == "OIDC role claim and required role must be configured"@,
        ConfigErrorView::MissingOpenidScope.message_text() == "OIDC scopes must include openid"@,
        ConfigErrorView::LifetimeOutOfRange.message_text()
            == "OIDC session/state lifetime is outside the allowed range"@,
        ConfigErrorView::UnsupportedAuthMethod.message_text()
            == "unsupported OIDC token endpoint authentication method"@,
        ConfigErrorView::InsecureCookie.message_text()
            == "ZO_COOKIE_SECURE_ONLY must be true for production OIDC"@,
{
}

} // verus!
