//! Narrow, file-backed automation identities.
//!
//! This is deliberately no general access control. Three fixed machine identities may each do one
//! thing: ingest, run bounded aggregate queries, or reconcile governed dashboards.

use crate::digest;
use crate::policy;
use crate::policy::AutomationPolicy;
use crate::text;
use crate::text::{CharClass, Separator};
use vstd::prelude::*;
use vstd::string::*;

verus! {

/// The identity that ingests.
pub const INGEST_IDENTITY: &'static str = "creator-signal-ingest";

/// The identity that runs queries.
pub const QUERY_IDENTITY: &'static str = "creator-signal-query";

/// The identity that reconciles dashboards.
pub const DASHBOARD_IDENTITY: &'static str = "creator-signal-dashboard-reconciler";

/// The method of a request, as far as the decisions tell methods apart.
#[derive(Clone, Copy, Debug, PartialEq, Eq, Structural)]
pub enum Method {
    Get,
    Post,
    Put,
    Delete,
    Other,
}

/// The role of a user in an organization.
#[derive(Clone, Debug, PartialEq, Eq)]
pub enum UserRole {
    Admin,
    Editor,
    Viewer,
    ServiceAccount,
    Other(String),
}

/// Why a request is not let in.
#[derive(Clone, Debug, PartialEq, Eq)]
pub enum AuthError {
    Unauthorized(String),
    Forbidden(String),
}

/// What an [`AuthError`] stands for.
pub enum AuthErrorView {
    Unauthorized(Seq<char>),
    Forbidden(Seq<char>),
}

impl View for AuthError {
    type V = AuthErrorView;

    open spec fn view(&self) -> AuthErrorView {
        match *self {
            AuthError::Unauthorized(message) => AuthErrorView::Unauthorized(message@),
            AuthError::Forbidden(message) => AuthErrorView::Forbidden(message@),
        }
    }
}

/// Who a request was let in as.
#[derive(Clone, Debug, PartialEq, Eq)]
pub struct TokenValidationResponse {
    pub is_valid: bool,
    pub user_email: String,
    pub is_internal_user: bool,
    pub user_role: Option<UserRole>,
    pub user_name: String,
    pub family_name: String,
    pub given_name: String,
}

/// The configuration of the automation identities.
#[derive(Clone, Debug)]
pub struct AutomationSettings {
    pub enabled: bool,
    pub org: String,
    pub ingest_token_file: String,
    pub query_token_file: String,
    pub dashboard_token_file: String,
    pub policy_file: String,
}

/// What the three credential files hold; `None` for one that could not be read.
#[derive(Clone, Debug)]
pub struct SecretFiles {
    pub ingest: Option<String>,
    pub query: Option<String>,
    pub dashboard: Option<String>,
}

/// The three credentials.
#[derive(Clone, Debug)]
pub struct AutomationSecrets {
    pub ingest: String,
    pub query: String,
    pub dashboard: String,
}

/// What an automation identity may do.
#[derive(Clone, Copy, Debug, PartialEq, Eq, Structural)]
pub enum Capability {
    Ingest,
    Query,
    Dashboard,
}

// ---------------------------------------------------------------------------------------------
// What the decisions are
// ---------------------------------------------------------------------------------------------

impl Capability {
    /// The identity that has the capability.
    pub open spec fn identity_text(self) -> Seq<char> {
        match self {
            Capability::Ingest => INGEST_IDENTITY@,
            Capability::Query => QUERY_IDENTITY@,
            Capability::Dashboard => DASHBOARD_IDENTITY@,
        }
    }

    /// The role that goes with the capability.
    pub open spec fn role_of(self) -> UserRole {
        match self {
            Capability::Ingest => UserRole::ServiceAccount,
            Capability::Query => UserRole::Viewer,
            Capability::Dashboard => UserRole::Editor,
        }
    }
}

/// The capability of an identity, where it is one of the three.
pub open spec fn capability_of(user_id: Seq<char>) -> Option<Capability> {
    if user_id == INGEST_IDENTITY@ {
        Some(Capability::Ingest)
    } else if user_id == QUERY_IDENTITY@ {
        Some(Capability::Query)
    } else if user_id == DASHBOARD_IDENTITY@ {
        Some(Capability::Dashboard)
    } else {
        None
    }
}

/// The method of that name. Names of methods are told apart by case.
pub open spec fn method_named(name: Seq<char>) -> Method {
    if name == "GET"@ {
        Method::Get
    } else if name == "POST"@ {
        Method::Post
    } else if name == "PUT"@ {
        Method::Put
    } else if name == "DELETE"@ {
        Method::Delete
    } else {
        Method::Other
    }
}

/// The names along a Unix path: what stands between its slashes, but for empty names and `.`.
pub open spec fn path_names(path: Seq<char>) -> Seq<Seq<char>> {
    text::pieces(path, Separator::Slash).filter(|name: Seq<char>| name.len() > 0 && name != "."@)
}

/// An absolute path without `..` in it.
pub open spec fn plain_absolute(path: Seq<char>) -> bool {
    path.len() > 0 && path[0] == '/' && !text::contains_text(path, ".."@)
}

/// A file directly in one of the two directories for secrets.
pub open spec fn secret_path_ok(path: Seq<char>) -> bool {
    let names = path_names(path);
    &&& plain_absolute(path)
    &&& names.len() == 3
    &&& names[0] == "run"@
    &&& names[1] == "secrets"@ || names[1] == "creator-signal-secrets"@
}

/// A path in the directory for secrets or in the one for the configuration of the repository.
pub open spec fn policy_path_ok(path: Seq<char>) -> bool {
    let names = path_names(path);
    &&& plain_absolute(path)
    &&& seq!["run"@, "secrets"@].is_prefix_of(names) || seq![
        "run"@,
        "creator-signal"@,
        "repository-configs"@,
        "openobserve"@,
    ].is_prefix_of(names)
}

/// The credential in a file: its content without the white space around it, where the path is
/// one for secrets, the file could be read, and the credential has 32 to 256 bytes and no white
/// space in it. Else what is wrong.
pub open spec fn secret_of(path: Seq<char>, content: Option<Seq<char>>) -> Result<
    Seq<char>,
    Seq<char>,
> {
    if !secret_path_ok(path) {
        Err("Scoped automation credential path is invalid"@)
    } else {
        match content {
            None => Err("Scoped automation credential is unavailable"@),
            Some(content) => {
                let value = text::trim(content);
                if !(32 <= text::byte_len(value) <= 256) || (exists|i: int|
                    0 <= i < value.len() && text::white_space(#[trigger] value[i])) {
                    Err("Scoped automation credential is invalid"@)
                } else {
                    Ok(value)
                }
            },
        }
    }
}

/// No two of the three credentials have the same digest.
pub open spec fn secrets_distinct(ingest: Seq<char>, query: Seq<char>, dashboard: Seq<char>) -> bool {
    &&& !digest::same_digest(ingest, query)
    &&& !digest::same_digest(ingest, dashboard)
    &&& !digest::same_digest(query, dashboard)
}

/// The three credentials, where each is one and they are distinct; else what is wrong first.
pub open spec fn secrets_of(settings: AutomationSettings, files: SecretFiles) -> Result<
    (Seq<char>, Seq<char>, Seq<char>),
    Seq<char>,
> {
    match (
        secret_of(settings.ingest_token_file@, text::text_view(files.ingest)),
        secret_of(settings.query_token_file@, text::text_view(files.query)),
        secret_of(settings.dashboard_token_file@, text::text_view(files.dashboard)),
    ) {
        (Err(fault), _, _) => Err(fault),
        (_, Err(fault), _) => Err(fault),
        (_, _, Err(fault)) => Err(fault),
        (Ok(ingest), Ok(query), Ok(dashboard)) => if secrets_distinct(ingest, query, dashboard) {
            Ok((ingest, query, dashboard))
        } else {
            Err("Scoped automation credentials must be distinct"@)
        },
    }
}

/// The credential that goes with a capability.
pub open spec fn secret_for(
    capability: Capability,
    secrets: (Seq<char>, Seq<char>, Seq<char>),
) -> Seq<char> {
    match capability {
        Capability::Ingest => secrets.0,
        Capability::Query => secrets.1,
        Capability::Dashboard => secrets.2,
    }
}

/// The dashboard operations: list and create, and read and replace by identifier.
pub open spec fn dashboard_path_ok(path: Seq<char>, org: Seq<char>, method: Method) -> bool {
    let base = org + "/dashboards"@;
    if path == base {
        method is Get || method is Post
    } else {
        match text::without_prefix(path, base + "/"@) {
            Some(id) => text::made_of(id, CharClass::Name, 1, 128) && (method is Get
                || method is Put),
            None => false,
        }
    }
}

/// What each capability may ask for, in its organization.
pub open spec fn operation_ok(
    capability: Capability,
    path: Seq<char>,
    method: Method,
    org: Seq<char>,
) -> bool {
    &&& text::pieces(path, Separator::Slash).first() == org
    &&& match capability {
        Capability::Ingest => method is Post && (path == org + "/v1/"@ + "logs"@ || path == org
            + "/v1/"@ + "metrics"@ || path == org + "/v1/"@ + "traces"@),
        Capability::Query => method is Post && path == org + "/_search"@,
        Capability::Dashboard => dashboard_path_ok(path, org, method),
    }
}

/// The path without the slash that it may start with.
pub open spec fn relative_path(path: Seq<char>) -> Seq<char> {
    match text::without_prefix(path, "/"@) {
        Some(rest) => rest,
        None => path,
    }
}

/// Whether a request of an identity comes as far as its password: `None` where the identity is
/// not one of the three, else the capability that it has, or why it stops here.
pub open spec fn operation_decision(
    user_id: Seq<char>,
    path: Seq<char>,
    method: Method,
    settings: AutomationSettings,
) -> Option<Result<Capability, AuthErrorView>> {
    match capability_of(user_id) {
        None => None,
        Some(capability) => if !settings.enabled || !policy::org_ok(text::trim(settings.org@)) {
            Some(Err(AuthErrorView::Forbidden("Scoped automation is unavailable"@)))
        } else if !operation_ok(
            capability,
            relative_path(path),
            method,
            text::trim(settings.org@),
        ) {
            Some(
                Err(
                    AuthErrorView::Forbidden(
                        "Scoped automation identity is not permitted for this operation"@,
                    ),
                ),
            )
        } else {
            Some(Ok(capability))
        },
    }
}

/// Whether the password of a permitted request is the one of its identity.
pub open spec fn password_decision(
    capability: Capability,
    password: Seq<char>,
    settings: AutomationSettings,
    files: SecretFiles,
) -> Result<Capability, AuthErrorView> {
    match secrets_of(settings, files) {
        Err(fault) => Err(AuthErrorView::Forbidden(fault)),
        Ok(secrets) => if digest::same_digest(secret_for(capability, secrets), password) {
            Ok(capability)
        } else {
            Err(AuthErrorView::Unauthorized("Unauthorized Access"@))
        },
    }
}

/// The whole decision: operation first, then password.
pub open spec fn credentials_decision(
    user_id: Seq<char>,
    password: Seq<char>,
    path: Seq<char>,
    method: Method,
    settings: AutomationSettings,
    files: SecretFiles,
) -> Option<Result<Capability, AuthErrorView>> {
    match operation_decision(user_id, path, method, settings) {
        Some(Ok(capability)) => Some(password_decision(capability, password, settings, files)),
        other => other,
    }
}

/// The response says that the request was let in with the capability.
pub open spec fn response_for(response: TokenValidationResponse, capability: Capability) -> bool {
    &&& response.is_valid
    &&& response.user_email@ == capability.identity_text()
    &&& response.is_internal_user
    &&& response.user_role == Some(capability.role_of())
    &&& response.user_name@ == capability.identity_text()
    &&& response.family_name@ == Seq::<char>::empty()
    &&& response.given_name@ == capability.identity_text()
}

// ---------------------------------------------------------------------------------------------
// The decisions
// ---------------------------------------------------------------------------------------------

impl Capability {
    /// The identity that has the capability.
    pub fn identity(self) -> (identity: &'static str)
        ensures
            identity@ == self.identity_text(),
    {
        match self {
            Capability::Ingest => INGEST_IDENTITY,
            Capability::Query => QUERY_IDENTITY,
            Capability::Dashboard => DASHBOARD_IDENTITY,
        }
    }

    /// The role that goes with the capability.
    pub fn role(self) -> (role: UserRole)
        ensures
            role == self.role_of(),
    {
        match self {
            Capability::Ingest => UserRole::ServiceAccount,
            Capability::Query => UserRole::Viewer,
            Capability::Dashboard => UserRole::Editor,
        }
    }
}

impl UserRole {
    /// Whether it is the role of an administrator.
    pub fn is_admin(&self) -> (is: bool)
        ensures
            is == (*self is Admin),
    {
        matches!(self, UserRole::Admin)
    }

    /// Whether it is the role of a service account.
    pub fn is_service_account(&self) -> (is: bool)
        ensures
            is == (*self is ServiceAccount),
    {
        matches!(self, UserRole::ServiceAccount)
    }
}

impl Method {
    /// The method of that name.
    pub fn from_name(name: &str) -> (method: Method)
        ensures
            method == method_named(name@),
    {
        if text::same_text(name, "GET") {
            Method::Get
        } else if text::same_text(name, "POST") {
            Method::Post
        } else if text::same_text(name, "PUT") {
            Method::Put
        } else if text::same_text(name, "DELETE") {
            Method::Delete
        } else {
            Method::Other
        }
    }
}

/// The capability of an identity, where it is one of the three.
pub fn capability(user_id: &str) -> (capability: Option<Capability>)
    ensures
        capability == capability_of(user_id@),
{
    if text::same_text(user_id, INGEST_IDENTITY) {
        Some(Capability::Ingest)
    } else if text::same_text(user_id, QUERY_IDENTITY) {
        Some(Capability::Query)
    } else if text::same_text(user_id, DASHBOARD_IDENTITY) {
        Some(Capability::Dashboard)
    } else {
        None
    }
}

/// The names along a Unix path.
pub fn names_along(path: &str) -> (names: Vec<String>)
    ensures
        text::texts(names@) == path_names(path@),
{
    let parts: Vec<String> = text::split_text(path, Separator::Slash);
    let ghost keep = |name: Seq<char>| name.len() > 0 && name != "."@;
    let mut names: Vec<String> = Vec::new();
    let mut i: usize = 0;
    proof {
        assert(text::texts(parts@).take(0) =~= Seq::empty());
        assert(text::texts(names@) =~= Seq::empty());
        reveal(Seq::filter);
    }
    while i < parts.len()
        invariant
            i <= parts.len(),
            keep == (|name: Seq<char>| name.len() > 0 && name != "."@),
            text::texts(names@) == text::texts(parts@).take(i as int).filter(keep),
        decreases parts.len() - i,
    {
        let ghost views: Seq<Seq<char>> = text::texts(parts@);
        let ghost before: Seq<Seq<char>> = text::texts(names@);
        proof {
            reveal(Seq::filter);
            assert(views.take(i + 1).drop_last() =~= views.take(i as int));
        }
        if parts[i].as_str().unicode_len() > 0 && !text::same_text(parts[i].as_str(), ".") {
            names.push(parts[i].clone());
            proof {
                assert(text::texts(names@) =~= before.push(views[i as int]));
            }
        }
        i = i + 1;
    }
    proof {
        assert(text::texts(parts@).take(parts@.len() as int) =~= text::texts(parts@));
    }
    names
}

fn is_plain_absolute(path: &str) -> (plain: bool)
    ensures
        plain == plain_absolute(path@),
{
    path.unicode_len() > 0 && path.get_char(0) == '/' && !text::has_text(path, "..")
}

/// Whether the names start with those of a directory.
fn within(names: &Vec<String>, directory: &Vec<&str>) -> (inside: bool)
    ensures
        inside == directory@.map_values(|name: &str| name@).is_prefix_of(text::texts(names@)),
{
    let ghost wanted: Seq<Seq<char>> = directory@.map_values(|name: &str| name@);
    let ghost given: Seq<Seq<char>> = text::texts(names@);
    if directory.len() > names.len() {
        return false;
    }
    let mut i: usize = 0;
    while i < directory.len()
        invariant
            i <= directory.len() <= names.len(),
            wanted == directory@.map_values(|name: &str| name@),
            given == text::texts(names@),
            forall|j: int| 0 <= j < i ==> wanted[j] == given[j],
        decreases directory.len() - i,
    {
        if !text::same_text(names[i].as_str(), directory[i]) {
            proof {
                assert(wanted[i as int] != given[i as int]);
                assert(given.take(wanted.len() as int)[i as int] != wanted[i as int]);
            }
            return false;
        }
        i = i + 1;
    }
    proof {
        assert(given.take(wanted.len() as int) =~= wanted);
    }
    true
}

/// Whether a path is one from which a credential is read.
pub fn fixed_secret_path(path: &str) -> (fixed: bool)
    ensures
        fixed == secret_path_ok(path@),
{
    let names: Vec<String> = names_along(path);
    proof {
        assert(text::texts(names@).len() == names@.len());
    }
    is_plain_absolute(path) && names.len() == 3 && text::same_text(names[0].as_str(), "run") && (
    text::same_text(names[1].as_str(), "secrets") || text::same_text(
        names[1].as_str(),
        "creator-signal-secrets",
    ))
}

/// Whether a path is one from which the policy is read.
pub fn fixed_policy_path(path: &str) -> (fixed: bool)
    ensures
        fixed == policy_path_ok(path@),
{
    let names: Vec<String> = names_along(path);
    let secrets: Vec<&str> = vec!["run", "secrets"];
    let repository: Vec<&str> = vec!["run", "creator-signal", "repository-configs", "openobserve"];
    proof {
        assert(secrets@.map_values(|name: &str| name@) =~= seq!["run"@, "secrets"@]);
        assert(repository@.map_values(|name: &str| name@) =~= seq![
            "run"@,
            "creator-signal"@,
            "repository-configs"@,
            "openobserve"@,
        ]);
    }
    is_plain_absolute(path) && (within(&names, &secrets) || within(&names, &repository))
}

/// The credential in a file, from the path and what was read there.
pub fn read_bounded_secret(path: &str, content: Option<&str>) -> (secret: Result<String, AuthError>)
    ensures
        match secret_of(path@, text::str_view(content)) {
            Ok(value) => secret matches Ok(read) && read@ == value,
            Err(fault) => secret matches Err(error) && error@ == AuthErrorView::Forbidden(fault),
        },
{
    if !fixed_secret_path(path) {
        return Err(
            AuthError::Forbidden("Scoped automation credential path is invalid".to_owned()),
        );
    }
    let content: &str = match content {
        Some(content) => content,
        None => {
            return Err(
                AuthError::Forbidden("Scoped automation credential is unavailable".to_owned()),
            );
        },
    };
    let value: &str = text::trimmed(content);
    let size: usize = text::bytes_in(value);
    if size < 32 || size > 256 || text::has_white_space(value) {
        return Err(AuthError::Forbidden("Scoped automation credential is invalid".to_owned()));
    }
    Ok(value.to_owned())
}

/// The three credentials, from what was read of their files.
pub fn configured_secrets(settings: &AutomationSettings, files: &SecretFiles) -> (secrets: Result<
    AutomationSecrets,
    AuthError,
>)
    ensures
        match secrets_of(*settings, *files) {
            Ok(values) => secrets matches Ok(read) && (
                read.ingest@,
                read.query@,
                read.dashboard@,
            ) == values,
            Err(fault) => secrets matches Err(error) && error@ == AuthErrorView::Forbidden(fault),
        },
{
    let ingest: String = match read_bounded_secret(
        settings.ingest_token_file.as_str(),
        text::as_text(&files.ingest),
    ) {
        Ok(secret) => secret,
        Err(error) => {
            return Err(error);
        },
    };
    let query: String = match read_bounded_secret(
        settings.query_token_file.as_str(),
        text::as_text(&files.query),
    ) {
        Ok(secret) => secret,
        Err(error) => {
            return Err(error);
        },
    };
    let dashboard: String = match read_bounded_secret(
        settings.dashboard_token_file.as_str(),
        text::as_text(&files.dashboard),
    ) {
        Ok(secret) => secret,
        Err(error) => {
            return Err(error);
        },
    };
    if digest::secure_equal(ingest.as_str(), query.as_str()) || digest::secure_equal(
        ingest.as_str(),
        dashboard.as_str(),
    ) || digest::secure_equal(query.as_str(), dashboard.as_str()) {
        return Err(
            AuthError::Forbidden("Scoped automation credentials must be distinct".to_owned()),
        );
    }
    Ok(AutomationSecrets { ingest, query, dashboard })
}

fn dashboard_path_allowed(path: &str, org: &str, method: Method) -> (allowed: bool)
    ensures
        allowed == dashboard_path_ok(path@, org@, method),
{
    let base: String = text::joined(org, "/dashboards");
    if text::same_text(path, base.as_str()) {
        return method == Method::Get || method == Method::Post;
    }
    match text::strip_prefix(path, text::joined(base.as_str(), "/").as_str()) {
        Some(id) => text::is_made_of(id, CharClass::Name, 1, 128) && (method == Method::Get
            || method == Method::Put),
        None => false,
    }
}

/// Whether a capability may ask for a path of an organization by a method. The path is relative
/// to the root of the API.
pub fn operation_allowed(
    capability: Capability,
    path: &str,
    method: Method,
    org: &str,
) -> (allowed: bool)
    ensures
        allowed == operation_ok(capability, path@, method, org@),
{
    let parts: Vec<String> = text::split_text(path, Separator::Slash);
    proof {
        text::lemma_pieces_nonempty(path@, Separator::Slash);
        assert(text::texts(parts@)[0] == parts@[0]@);
    }
    if !text::same_text(parts[0].as_str(), org) {
        return false;
    }
    match capability {
        Capability::Ingest => {
            let base: String = text::joined(org, "/v1/");
            method == Method::Post && (text::same_text(
                path,
                text::joined(base.as_str(), "logs").as_str(),
            ) || text::same_text(path, text::joined(base.as_str(), "metrics").as_str())
                || text::same_text(path, text::joined(base.as_str(), "traces").as_str()))
        },
        Capability::Query => method == Method::Post && text::same_text(
            path,
            text::joined(org, "/_search").as_str(),
        ),
        Capability::Dashboard => dashboard_path_allowed(path, org, method),
    }
}

/// The first half of the decision on a request: identity, configuration and operation. The
/// credential files need to be read only where the answer is a capability.
pub fn admit_operation(
    user_id: &str,
    path: &str,
    method: Method,
    settings: &AutomationSettings,
) -> (decision: Option<Result<Capability, AuthError>>)
    ensures
        match operation_decision(user_id@, path@, method, *settings) {
            None => decision is None,
            Some(Ok(capability)) => decision == Some(Ok::<Capability, AuthError>(capability)),
            Some(Err(error)) => decision matches Some(Err(e)) && e@ == error,
        },
{
    let capability: Capability = match capability(user_id) {
        Some(capability) => capability,
        None => {
            return None;
        },
    };
    let org: &str = text::trimmed(settings.org.as_str());
    if !settings.enabled || !policy::valid_org(org) {
        return Some(Err(AuthError::Forbidden("Scoped automation is unavailable".to_owned())));
    }
    let relative: &str = match text::strip_prefix(path, "/") {
        Some(rest) => rest,
        None => path,
    };
    if !operation_allowed(capability, relative, method, org) {
        return Some(
            Err(
                AuthError::Forbidden(
                    "Scoped automation identity is not permitted for this operation".to_owned(),
                ),
            ),
        );
    }
    Some(Ok(capability))
}

/// The second half of the decision on a request: the password.
pub fn admit_password(
    capability: Capability,
    password: &str,
    settings: &AutomationSettings,
    files: &SecretFiles,
) -> (decision: Result<TokenValidationResponse, AuthError>)
    ensures
        match password_decision(capability, password@, *settings, *files) {
            Ok(capability) => decision matches Ok(response) && response_for(response, capability),
            Err(error) => decision matches Err(e) && e@ == error,
        },
{
    let secrets: AutomationSecrets = match configured_secrets(settings, files) {
        Ok(secrets) => secrets,
        Err(error) => {
            return Err(error);
        },
    };
    let expected: &str = match capability {
        Capability::Ingest => secrets.ingest.as_str(),
        Capability::Query => secrets.query.as_str(),
        Capability::Dashboard => secrets.dashboard.as_str(),
    };
    if !digest::secure_equal(expected, password) {
        return Err(AuthError::Unauthorized("Unauthorized Access".to_owned()));
    }
    Ok(
        TokenValidationResponse {
            is_valid: true,
            user_email: capability.identity().to_owned(),
            is_internal_user: true,
            user_role: Some(capability.role()),
            user_name: capability.identity().to_owned(),
            family_name: String::new(),
            given_name: capability.identity().to_owned(),
        },
    )
}

/// Authenticates one of the three reserved identities. `None` means that the identity is not
/// reserved, and that some other authentication may go on. A reserved identity is either let in
/// or refused; it never falls back to another authentication.
pub fn validate_automation_credentials(
    user_id: &str,
    password: &str,
    path: &str,
    method: Method,
    settings: &AutomationSettings,
    files: &SecretFiles,
) -> (decision: Option<Result<TokenValidationResponse, AuthError>>)
    ensures
        match credentials_decision(user_id@, password@, path@, method, *settings, *files) {
            None => decision is None,
            Some(Ok(capability)) => decision matches Some(Ok(response)) && response_for(
                response,
                capability,
            ),
            Some(Err(error)) => decision matches Some(Err(e)) && e@ == error,
        },
{
    match admit_operation(user_id, path, method, settings) {
        None => None,
        Some(Err(error)) => Some(Err(error)),
        Some(Ok(capability)) => Some(admit_password(capability, password, settings, files)),
    }
}

/// What came of reading the policy file.
#[derive(Debug)]
pub enum PolicyRead {
    /// The file could not be read.
    Unreadable,
    /// The file has that many bytes, and holds that policy; `None` where it is no policy.
    Read { size: usize, decoded: Option<AutomationPolicy> },
}

/// The size of a policy file that is looked into.
pub open spec fn policy_size_ok(size: usize) -> bool {
    1 <= size <= policy::MAX_POLICY_BYTES
}

/// The policy that is in force, or why there is none.
pub open spec fn policy_decision(settings: AutomationSettings, read: PolicyRead) -> Result<
    AutomationPolicy,
    Seq<char>,
> {
    if !policy_path_ok(text::trim(settings.policy_file@)) {
        Err("Scoped automation policy path is invalid"@)
    } else {
        match read {
            PolicyRead::Unreadable => Err("Scoped automation policy is unavailable"@),
            PolicyRead::Read { size, decoded } => if !policy_size_ok(size) {
                Err("Scoped automation policy size is invalid"@)
            } else {
                match decoded {
                    None => Err("Scoped automation policy is invalid"@),
                    Some(policy) => match policy::policy_fault(policy, text::trim(settings.org@)) {
                        Some(fault) => Err(fault),
                        None => Ok(policy),
                    },
                }
            },
        }
    }
}

/// Where the policy is read from, or why it is not read.
pub fn policy_path(settings: &AutomationSettings) -> (path: Result<String, String>)
    ensures
        policy_path_ok(text::trim(settings.policy_file@)) ==> (path matches Ok(read) && read@
            == text::trim(settings.policy_file@)),
        !policy_path_ok(text::trim(settings.policy_file@)) ==> (path matches Err(message)
            && message@ == "Scoped automation policy path is invalid"@),
{
    let path: &str = text::trimmed(settings.policy_file.as_str());
    if fixed_policy_path(path) {
        Ok(path.to_owned())
    } else {
        Err("Scoped automation policy path is invalid".to_owned())
    }
}

/// Whether a policy file of that size is looked into.
pub fn policy_size_allowed(size: usize) -> (allowed: bool)
    ensures
        allowed == policy_size_ok(size),
{
    1 <= size && size <= policy::MAX_POLICY_BYTES
}

/// The policy that is in force, from what was read of its file.
pub fn load_automation_policy(settings: &AutomationSettings, read: PolicyRead) -> (policy: Result<
    AutomationPolicy,
    String,
>)
    ensures
        match policy_decision(*settings, read) {
            Ok(decided) => policy == Ok::<AutomationPolicy, String>(decided),
            Err(fault) => policy matches Err(message) && message@ == fault,
        },
{
    match policy_path(settings) {
        Ok(_) => {},
        Err(message) => {
            return Err(message);
        },
    }
    match read {
        PolicyRead::Unreadable => Err("Scoped automation policy is unavailable".to_owned()),
        PolicyRead::Read { size, decoded } => {
            if !policy_size_allowed(size) {
                return Err("Scoped automation policy size is invalid".to_owned());
            }
            match decoded {
                None => Err("Scoped automation policy is invalid".to_owned()),
                Some(policy) => match policy::validate_policy(
                    &policy,
                    text::trimmed(settings.org.as_str()),
                ) {
                    Ok(_) => Ok(policy),
                    Err(message) => Err(message),
                },
            }
        },
    }
}

// ---------------------------------------------------------------------------------------------
// Laws
// ---------------------------------------------------------------------------------------------

/// Each capability belongs to exactly one identity: the identity of a capability has that
/// capability, and no other identity has it.
pub proof fn identities_are_exact(capability: Capability, user_id: Seq<char>)
    ensures
        capability_of(user_id) == Some(capability) <==> user_id == capability.identity_text(),
{
    reveal_strlit("creator-signal-ingest");
    reveal_strlit("creator-signal-query");
    reveal_strlit("creator-signal-dashboard-reconciler");
    assert(INGEST_IDENTITY@.len() == 21);
    assert(QUERY_IDENTITY@.len() == 20);
    assert(DASHBOARD_IDENTITY@.len() == 35);
}

/// The scopes do not overlap: no request is permitted to two capabilities.
pub proof fn scopes_are_disjoint(
    a: Capability,
    b: Capability,
    path: Seq<char>,
    method: Method,
    org: Seq<char>,
)
    requires
        operation_ok(a, path, method, org),
        operation_ok(b, path, method, org),
    ensures
        a == b,
{
    lemma_scope_mark(a, path, method, org);
    lemma_scope_mark(b, path, method, org);
}

/// The character behind the organization and its slash tells the scopes apart.
proof fn lemma_scope_mark(capability: Capability, path: Seq<char>, method: Method, org: Seq<char>)
    requires
        operation_ok(capability, path, method, org),
    ensures
        path.len() > org.len() + 1,
        org.is_prefix_of(path),
        path[org.len() as int] == '/',
        path[org.len() as int + 1] == match capability {
            Capability::Ingest => 'v',
            Capability::Query => '_',
            Capability::Dashboard => 'd',
        },
{
    reveal_strlit("/v1/");
    reveal_strlit("/_search");
    reveal_strlit("/dashboards");
    reveal_strlit("/");
    let base = org + "/dashboards"@;
    match capability {
        Capability::Dashboard => {
            if path != base {
                assert((base + "/"@).is_prefix_of(path));
                assert(path.take((base + "/"@).len() as int) == base + "/"@);
                assert(path[org.len() as int] == (base + "/"@)[org.len() as int]);
                assert(path[org.len() as int + 1] == (base + "/"@)[org.len() as int + 1]);
                assert forall|i: int| 0 <= i < org.len() implies path[i] == org[i] by {
                    assert(path[i] == (base + "/"@)[i]);
                }
            }
        },
        _ => {},
    }
    assert(path.take(org.len() as int) =~= org);
}

/// Whatever a capability may ask for lies inside its organization.
pub proof fn operations_stay_in_the_organization(
    capability: Capability,
    path: Seq<char>,
    method: Method,
    org: Seq<char>,
)
    requires
        operation_ok(capability, path, method, org),
    ensures
        (org + "/"@).is_prefix_of(path),
{
    lemma_scope_mark(capability, path, method, org);
    reveal_strlit("/");
    assert(path.take(org.len() as int) == org);
    assert((org + "/"@) =~= path.take(org.len() as int + 1));
}

/// A reserved identity is always answered here, with a capability or with a refusal, and no other
/// identity ever is.
pub proof fn reserved_identities_never_fall_back(
    user_id: Seq<char>,
    password: Seq<char>,
    path: Seq<char>,
    method: Method,
    settings: AutomationSettings,
    files: SecretFiles,
)
    ensures
        credentials_decision(user_id, password, path, method, settings, files) is None <==> (
        user_id != INGEST_IDENTITY@ && user_id != QUERY_IDENTITY@ && user_id
            != DASHBOARD_IDENTITY@),
{
}

/// No password serves two identities: one that lets in an identity lets in no other one, whatever
/// the two ask for.
pub proof fn a_password_serves_one_identity(
    a: Seq<char>,
    b: Seq<char>,
    password: Seq<char>,
    path_a: Seq<char>,
    path_b: Seq<char>,
    method_a: Method,
    method_b: Method,
    settings: AutomationSettings,
    files: SecretFiles,
)
    requires
        credentials_decision(a, password, path_a, method_a, settings, files) matches Some(Ok(_)),
        credentials_decision(b, password, path_b, method_b, settings, files) matches Some(Ok(_)),
    ensures
        a == b,
{
    identities_are_exact(capability_of(a).unwrap(), a);
    identities_are_exact(capability_of(b).unwrap(), b);
}

/// Where the automation is switched off, or its organization has no proper name, nobody is let in.
pub proof fn nobody_is_let_in_while_unavailable(
    user_id: Seq<char>,
    password: Seq<char>,
    path: Seq<char>,
    method: Method,
    settings: AutomationSettings,
    files: SecretFiles,
)
    requires
        !settings.enabled || !policy::org_ok(text::trim(settings.org@)),
    ensures
        !(credentials_decision(user_id, password, path, method, settings, files) matches Some(
            Ok(_),
        )),
{
}

/// The text is one name along a path: it is not empty and not `.`, and has no slash in it.
pub open spec fn one_name(name: Seq<char>) -> bool {
    name.len() > 0 && name != "."@ && forall|i: int| 0 <= i < name.len() ==> #[trigger] name[i] != '/'
}

proof fn lemma_first_piece(org: Seq<char>, rest: Seq<char>)
    requires
        policy::org_ok(org),
        rest.len() > 0,
        rest[0] == '/',
    ensures
        text::pieces(org + rest, Separator::Slash).first() == org,
{
    let by = Separator::Slash;
    assert forall|i: int| 0 <= i < org.len() implies !by.separates(#[trigger] org[i]) by {
        assert(CharClass::Name.admits(org[i]));
    }
    text::a_text_without_separators_is_one_piece(org, by);
    text::pieces_join(org, '/', rest.drop_first(), by);
    assert(org + seq!['/'] + rest.drop_first() =~= org + rest);
    assert((text::pieces(org, by) + text::pieces(rest.drop_first(), by))[0] == org);
}

/// What the ingest identity may do in its organization: post logs, metrics and traces, and nothing
/// else.
pub proof fn ingest_has_its_three_signals(org: Seq<char>, path: Seq<char>, method: Method)
    requires
        policy::org_ok(org),
    ensures
        operation_ok(Capability::Ingest, org + "/v1/logs"@, Method::Post, org),
        operation_ok(Capability::Ingest, org + "/v1/metrics"@, Method::Post, org),
        operation_ok(Capability::Ingest, org + "/v1/traces"@, Method::Post, org),
        operation_ok(Capability::Ingest, path, method, org) ==> method == Method::Post && (path
            == org + "/v1/logs"@ || path == org + "/v1/metrics"@ || path == org + "/v1/traces"@),
{
    reveal_strlit("/v1/");
    reveal_strlit("logs");
    reveal_strlit("metrics");
    reveal_strlit("traces");
    reveal_strlit("/v1/logs");
    reveal_strlit("/v1/metrics");
    reveal_strlit("/v1/traces");
    assert(org + "/v1/"@ + "logs"@ =~= org + "/v1/logs"@);
    assert(org + "/v1/"@ + "metrics"@ =~= org + "/v1/metrics"@);
    assert(org + "/v1/"@ + "traces"@ =~= org + "/v1/traces"@);
    lemma_first_piece(org, "/v1/logs"@);
    lemma_first_piece(org, "/v1/metrics"@);
    lemma_first_piece(org, "/v1/traces"@);
}

/// What the ingest identity may do does not depend on which of the three signals it posts.
pub proof fn every_stored_signal_is_ingested(org: Seq<char>, signal: Seq<char>, method: Method)
    requires
        policy::org_ok(org),
    ensures
        operation_ok(Capability::Ingest, org + "/v1/"@ + signal, method, org) <==> method
            == Method::Post && policy::known_signal(signal),
{
    reveal_strlit("/v1/");
    let path = org + "/v1/"@ + signal;
    lemma_first_piece(org, "/v1/"@ + signal);
    assert(org + ("/v1/"@ + signal) =~= path);
    assert(path.skip(org.len() as int + 4) =~= signal);
    assert((org + "/v1/"@ + "logs"@).skip(org.len() as int + 4) =~= "logs"@);
    assert((org + "/v1/"@ + "metrics"@).skip(org.len() as int + 4) =~= "metrics"@);
    assert((org + "/v1/"@ + "traces"@).skip(org.len() as int + 4) =~= "traces"@);
}

/// What the query identity may do in its organization: post a search, and nothing else.
pub proof fn query_has_its_search(org: Seq<char>, path: Seq<char>, method: Method)
    requires
        policy::org_ok(org),
    ensures
        operation_ok(Capability::Query, path, method, org) <==> method == Method::Post && path
            == org + "/_search"@,
{
    reveal_strlit("/_search");
    lemma_first_piece(org, "/_search"@);
}

/// What the dashboard identity may do in its organization: list and create dashboards, read and
/// replace one by an identifier of up to 128 letters, digits, `_` and `-`, and nothing else.
pub proof fn the_reconciler_has_its_dashboards(
    org: Seq<char>,
    path: Seq<char>,
    id: Seq<char>,
    method: Method,
)
    requires
        policy::org_ok(org),
    ensures
        operation_ok(Capability::Dashboard, org + "/dashboards"@, method, org) <==> method
            == Method::Get || method == Method::Post,
        operation_ok(Capability::Dashboard, org + "/dashboards/"@ + id, method, org) <==> (method
            == Method::Get || method == Method::Put) && 1 <= id.len() <= 128 && forall|i: int|
            0 <= i < id.len() ==> ('0' <= #[trigger] id[i] <= '9' || 'A' <= id[i] <= 'Z' || 'a' <= id[i] <= 'z' || id[i] == '_' || id[i] == '-'),
        operation_ok(Capability::Dashboard, path, method, org) ==> path == org + "/dashboards"@ || (
        org + "/dashboards/"@).is_prefix_of(path),
{
    reveal_strlit("/dashboards");
    reveal_strlit("/dashboards/");
    reveal_strlit("/");
    let base = org + "/dashboards"@;
    let under = base + "/"@;
    assert(under =~= org + "/dashboards/"@);
    lemma_first_piece(org, "/dashboards"@);
    lemma_first_piece(org, "/dashboards/"@ + id);
    let one = org + "/dashboards/"@ + id;
    assert(org + ("/dashboards/"@ + id) =~= one);
    text::a_prefix_comes_off(under, id, one);
    assert(one.len() > base.len());
    if method == Method::Get || method == Method::Put {
        if operation_ok(Capability::Dashboard, one, method, org) {
            assert forall|i: int| 0 <= i < id.len() implies ('0' <= #[trigger] id[i] <= '9' || 'A' <= id[i] <= 'Z' || 'a' <= id[i] <= 'z' || id[i] == '_'
                || id[i] == '-') by {
                assert(CharClass::Name.admits(id[i]));
            }
        }
        if 1 <= id.len() <= 128 && forall|i: int|
            0 <= i < id.len() ==> ('0' <= #[trigger] id[i] <= '9' || 'A' <= id[i] <= 'Z' || 'a' <= id[i] <= 'z' || id[i] == '_' || id[i] == '-') {
            assert forall|i: int| 0 <= i < id.len() implies CharClass::Name.admits(
                #[trigger] id[i],
            ) by {
                assert('0' <= id[i] <= '9' || 'A' <= id[i] <= 'Z' || 'a' <= id[i] <= 'z' || id[i] == '_' || id[i] == '-');
            }
        }
    }
}

/// A path is taken with or without a slash before it.
pub proof fn one_leading_slash_is_indifferent(
    user_id: Seq<char>,
    path: Seq<char>,
    method: Method,
    settings: AutomationSettings,
)
    requires
        path.len() == 0 || path[0] != '/',
    ensures
        operation_decision(user_id, seq!['/'] + path, method, settings) == operation_decision(
            user_id,
            path,
            method,
            settings,
        ),
{
    reveal_strlit("/");
    let slash = "/"@;
    assert(slash =~= seq!['/']);
    text::a_prefix_comes_off(slash, path, seq!['/'] + path);
    if slash.is_prefix_of(path) {
        assert(path.take(1)[0] == path[0]);
    }
}

/// Whoever comes with the credential of a reserved identity, for an operation of its scope, is let
/// in, and with the capability of that identity. With another credential the answer is that the
/// access is unauthorized.
pub proof fn a_permitted_request_is_let_in(
    capability: Capability,
    password: Seq<char>,
    path: Seq<char>,
    method: Method,
    settings: AutomationSettings,
    files: SecretFiles,
    ingest: Seq<char>,
    query: Seq<char>,
    dashboard: Seq<char>,
)
    requires
        settings.enabled,
        policy::org_ok(text::trim(settings.org@)),
        operation_ok(capability, path, method, text::trim(settings.org@)),
        secret_of(settings.ingest_token_file@, text::text_view(files.ingest)) == Ok::<
            Seq<char>,
            Seq<char>,
        >(ingest),
        secret_of(settings.query_token_file@, text::text_view(files.query)) == Ok::<
            Seq<char>,
            Seq<char>,
        >(query),
        secret_of(settings.dashboard_token_file@, text::text_view(files.dashboard)) == Ok::<
            Seq<char>,
            Seq<char>,
        >(dashboard),
        !digest::same_digest(ingest, query),
        !digest::same_digest(ingest, dashboard),
        !digest::same_digest(query, dashboard),
    ensures
        password == (match capability {
            Capability::Ingest => ingest,
            Capability::Query => query,
            Capability::Dashboard => dashboard,
        }) ==> credentials_decision(
            match capability {
                Capability::Ingest => "creator-signal-ingest"@,
                Capability::Query => "creator-signal-query"@,
                Capability::Dashboard => "creator-signal-dashboard-reconciler"@,
            },
            password,
            seq!['/'] + path,
            method,
            settings,
            files,
        ) == Some(Ok::<Capability, AuthErrorView>(capability)),
        !digest::same_digest(
            password,
            match capability {
                Capability::Ingest => ingest,
                Capability::Query => query,
                Capability::Dashboard => dashboard,
            },
        ) ==> credentials_decision(
            match capability {
                Capability::Ingest => "creator-signal-ingest"@,
                Capability::Query => "creator-signal-query"@,
                Capability::Dashboard => "creator-signal-dashboard-reconciler"@,
            },
            password,
            seq!['/'] + path,
            method,
            settings,
            files,
        ) == Some(
            Err::<Capability, AuthErrorView>(
                AuthErrorView::Unauthorized("Unauthorized Access"@),
            ),
        ),
{
    let user_id = match capability {
        Capability::Ingest => "creator-signal-ingest"@,
        Capability::Query => "creator-signal-query"@,
        Capability::Dashboard => "creator-signal-dashboard-reconciler"@,
    };
    identities_are_exact(capability, user_id);
    operations_stay_in_the_organization(capability, path, method, text::trim(settings.org@));
    let org = text::trim(settings.org@);
    assert(path[0] == org[0]) by {
        lemma_scope_mark(capability, path, method, org);
        assert(path.take(org.len() as int)[0] == org[0]);
    }
    assert(CharClass::Name.admits(org[0]));
    reveal_strlit("/");
    assert("/"@ =~= seq!['/']);
    text::a_prefix_comes_off("/"@, path, seq!['/'] + path);
}

/// Whoever is let in is let in under the identity that goes with the capability, as a user of the
/// machine's own, with the role of that capability: a service account to ingest, a viewer to query,
/// an editor for dashboards.
pub proof fn whoever_is_let_in_has_one_role(
    response: TokenValidationResponse,
    capability: Capability,
)
    requires
        response_for(response, capability),
    ensures
        response.is_valid,
        response.is_internal_user,
        capability == Capability::Ingest ==> response.user_email@ == "creator-signal-ingest"@
            && response.user_role == Some(UserRole::ServiceAccount),
        capability == Capability::Query ==> response.user_email@ == "creator-signal-query"@
            && response.user_role == Some(UserRole::Viewer),
        capability == Capability::Dashboard ==> response.user_email@
            == "creator-signal-dashboard-reconciler"@ && response.user_role == Some(
            UserRole::Editor,
        ),
        response.user_name@ == response.user_email@,
        response.given_name@ == response.user_email@,
        response.family_name@.len() == 0,
{
}

/// A credential is what stands in its file, without the white space around it, where it has 32 to
/// 256 bytes and no white space in it.
pub proof fn a_credential_is_read_from_its_file(
    path: Seq<char>,
    before: Seq<char>,
    inner: Seq<char>,
    after: Seq<char>,
)
    requires
        secret_path_ok(path),
        text::all_white(before),
        text::tight(inner),
        text::all_white(after),
    ensures
        (forall|i: int| 0 <= i < inner.len() ==> !text::white_space(#[trigger] inner[i])) && 32
            <= text::byte_len(inner) <= 256 <==> secret_of(path, Some(before + inner + after))
            == Ok::<Seq<char>, Seq<char>>(inner),
        secret_of(path, Some(before + inner + after)) matches Err(fault) ==> fault
            == "Scoped automation credential is invalid"@,
        secret_of(path, None) == Err::<Seq<char>, Seq<char>>(
            "Scoped automation credential is unavailable"@,
        ),
{
    text::trimming_takes_off_the_white_space_around(before, inner, after);
}

proof fn lemma_names_join(a: Seq<char>, b: Seq<char>)
    ensures
        path_names(a + seq!['/'] + b) == path_names(a) + path_names(b),
{
    let by = Separator::Slash;
    let keep = |name: Seq<char>| name.len() > 0 && name != "."@;
    text::pieces_join(a, '/', b, by);
    Seq::filter_distributes_over_add(text::pieces(a, by), text::pieces(b, by), keep);
}

proof fn lemma_one_name(name: Seq<char>)
    requires
        one_name(name),
    ensures
        path_names(name) == seq![name],
{
    let by = Separator::Slash;
    text::a_text_without_separators_is_one_piece(name, by);
    let keep = |name: Seq<char>| name.len() > 0 && name != "."@;
    reveal(Seq::filter);
    let list = seq![name];
    assert(list.drop_last() =~= Seq::empty());
    assert(list.drop_last().filter(keep) =~= Seq::empty());
    assert(list.filter(keep) =~= seq![name]);
}

proof fn lemma_no_names()
    ensures
        path_names(Seq::empty()) == Seq::<Seq<char>>::empty(),
{
    let by = Separator::Slash;
    let none = Seq::<char>::empty();
    text::a_text_without_separators_is_one_piece(none, by);
    let keep = |name: Seq<char>| name.len() > 0 && name != "."@;
    reveal(Seq::filter);
    let list = seq![none];
    assert(list.drop_last() =~= Seq::empty());
    assert(list.drop_last().filter(keep) =~= Seq::empty());
    assert(list.filter(keep) =~= Seq::empty());
}

/// The names along a path are its parts, in order; slashes that stand twice and `.` make no
/// difference.
pub proof fn names_along_a_path(a: Seq<char>, b: Seq<char>, name: Seq<char>)
    ensures
        path_names(a + seq!['/'] + b) == path_names(a) + path_names(b),
        one_name(name) ==> path_names(name) == seq![name],
        path_names(seq![]) == Seq::<Seq<char>>::empty(),
        path_names("."@) == Seq::<Seq<char>>::empty(),
{
    lemma_names_join(a, b);
    if one_name(name) {
        lemma_one_name(name);
    }
    lemma_no_names();
    let by = Separator::Slash;
    let dot = "."@;
    reveal_strlit(".");
    text::a_text_without_separators_is_one_piece(dot, by);
    let keep = |name: Seq<char>| name.len() > 0 && name != "."@;
    reveal(Seq::filter);
    let list = seq![dot];
    assert(list.drop_last() =~= Seq::empty());
    assert(list.drop_last().filter(keep) =~= Seq::empty());
    assert(list.filter(keep) =~= Seq::empty());
}

/// A credential is read from any file directly in `/run/secrets` or in
/// `/run/creator-signal-secrets`, and not from a directory below.
pub proof fn credentials_are_read_from_their_directories(name: Seq<char>, below: Seq<char>)
    requires
        one_name(name),
        one_name(below),
    ensures
        secret_path_ok("/run/secrets/"@ + name) <==> !text::contains_text(
            "/run/secrets/"@ + name,
            ".."@,
        ),
        secret_path_ok("/run/creator-signal-secrets/"@ + name) <==> !text::contains_text(
            "/run/creator-signal-secrets/"@ + name,
            ".."@,
        ),
        !secret_path_ok("/run/secrets/"@ + name + "/"@ + below),
        !secret_path_ok("/run/creator-signal-secrets/"@ + name + "/"@ + below),
        !secret_path_ok("/run/"@ + name),
{
    reveal_strlit("/");
    reveal_strlit("run");
    reveal_strlit("secrets");
    reveal_strlit("creator-signal-secrets");
    reveal_strlit("/run/");
    reveal_strlit("/run/secrets/");
    reveal_strlit("/run/creator-signal-secrets/");
    reveal_strlit(".");
    assert("."@.len() == 1 && "run"@.len() == 3 && "secrets"@.len() == 7);
    assert("creator-signal-secrets"@.len() == 22);
    let none = Seq::<char>::empty();
    lemma_no_names();
    lemma_one_name(name);
    lemma_one_name(below);
    lemma_one_name("run"@);
    lemma_one_name("secrets"@);
    lemma_one_name("creator-signal-secrets"@);
    lemma_names_join(none, "run"@);
    let run = none + seq!['/'] + "run"@;
    assert(path_names(run) =~= seq!["run"@]);
    lemma_names_join(run, "secrets"@);
    let a = run + seq!['/'] + "secrets"@;
    assert(path_names(a) =~= seq!["run"@, "secrets"@]);
    lemma_names_join(a, name);
    assert(a + seq!['/'] + name =~= "/run/secrets/"@ + name);
    assert(path_names("/run/secrets/"@ + name) =~= seq!["run"@, "secrets"@, name]);
    lemma_names_join("/run/secrets/"@ + name, below);
    assert("/run/secrets/"@ + name + seq!['/'] + below =~= "/run/secrets/"@ + name + "/"@ + below);
    lemma_names_join(run, "creator-signal-secrets"@);
    let b = run + seq!['/'] + "creator-signal-secrets"@;
    assert(path_names(b) =~= seq!["run"@, "creator-signal-secrets"@]);
    lemma_names_join(b, name);
    assert(b + seq!['/'] + name =~= "/run/creator-signal-secrets/"@ + name);
    assert(path_names("/run/creator-signal-secrets/"@ + name) =~= seq![
        "run"@,
        "creator-signal-secrets"@,
        name,
    ]);
    lemma_names_join("/run/creator-signal-secrets/"@ + name, below);
    assert("/run/creator-signal-secrets/"@ + name + seq!['/'] + below
        =~= "/run/creator-signal-secrets/"@ + name + "/"@ + below);
    lemma_names_join(run, name);
    assert(run + seq!['/'] + name =~= "/run/"@ + name);
    assert(("/run/secrets/"@ + name)[0] == '/');
    assert(("/run/creator-signal-secrets/"@ + name)[0] == '/');
}

/// The policy is read from any path below `/run/secrets` or below the directory for the
/// configuration of the repository, and from nowhere else.
pub proof fn the_policy_is_read_from_its_directories(rest: Seq<char>, path: Seq<char>)
    ensures
        policy_path_ok("/run/secrets/"@ + rest) <==> !text::contains_text(
            "/run/secrets/"@ + rest,
            ".."@,
        ),
        policy_path_ok("/run/creator-signal/repository-configs/openobserve/"@ + rest)
            <==> !text::contains_text(
            "/run/creator-signal/repository-configs/openobserve/"@ + rest,
            ".."@,
        ),
        policy_path_ok(path) ==> path.len() > 0 && path[0] == '/' && !text::contains_text(path, ".."@)
            && path_names(path).len() >= 2 && path_names(path)[0] == "run"@ && (path_names(path)[1]
            == "secrets"@ || (path_names(path).len() >= 4 && path_names(path)[1]
            == "creator-signal"@ && path_names(path)[2] == "repository-configs"@ && path_names(
            path,
        )[3] == "openobserve"@)),
{
    reveal_strlit("run");
    reveal_strlit("secrets");
    reveal_strlit("creator-signal");
    reveal_strlit("repository-configs");
    reveal_strlit("openobserve");
    reveal_strlit("/run/secrets/");
    reveal_strlit("/run/creator-signal/repository-configs/openobserve/");
    reveal_strlit(".");
    assert("."@.len() == 1 && "run"@.len() == 3 && "secrets"@.len() == 7);
    assert("creator-signal"@.len() == 14 && "repository-configs"@.len() == 18);
    assert("openobserve"@.len() == 11);
    let none = Seq::<char>::empty();
    let slash = seq!['/'];
    lemma_no_names();
    lemma_one_name("run"@);
    lemma_one_name("secrets"@);
    lemma_one_name("creator-signal"@);
    lemma_one_name("repository-configs"@);
    lemma_one_name("openobserve"@);
    lemma_names_join(none, "run"@);
    let run = none + slash + "run"@;
    lemma_names_join(run, "secrets"@);
    let a = run + slash + "secrets"@;
    assert(path_names(a) =~= seq!["run"@, "secrets"@]);
    lemma_names_join(a, rest);
    assert(a + slash + rest =~= "/run/secrets/"@ + rest);
    let whole = path_names("/run/secrets/"@ + rest);
    assert(whole.take(2) =~= seq!["run"@, "secrets"@]);
    assert(seq!["run"@, "secrets"@].is_prefix_of(whole));
    lemma_names_join(run, "creator-signal"@);
    let b = run + slash + "creator-signal"@;
    lemma_names_join(b, "repository-configs"@);
    let c = b + slash + "repository-configs"@;
    lemma_names_join(c, "openobserve"@);
    let d = c + slash + "openobserve"@;
    let names = seq!["run"@, "creator-signal"@, "repository-configs"@, "openobserve"@];
    assert(path_names(d) =~= names);
    lemma_names_join(d, rest);
    assert(d + slash + rest =~= "/run/creator-signal/repository-configs/openobserve/"@ + rest);
    let other = path_names("/run/creator-signal/repository-configs/openobserve/"@ + rest);
    assert(other.take(4) =~= names);
    assert(names.is_prefix_of(other));
    let given = path_names(path);
    if policy_path_ok(path) {
        if seq!["run"@, "secrets"@].is_prefix_of(given) {
            assert(given.take(2)[0] == "run"@ && given.take(2)[1] == "secrets"@);
        } else {
            assert(given.take(4)[0] == names[0] && given.take(4)[1] == names[1] && given.take(4)[2]
                == names[2] && given.take(4)[3] == names[3]);
        }
    }
}

/// A policy that was read and is in order is in force, as it was read, where its file has between
/// one byte and 128 KiB. With any other size it is not.
pub proof fn a_policy_in_order_is_in_force(
    settings: AutomationSettings,
    size: usize,
    policy: AutomationPolicy,
)
    requires
        policy_path_ok(text::trim(settings.policy_file@)),
        policy::policy_fault(policy, text::trim(settings.org@)) is None,
    ensures
        1 <= size <= 131_072 ==> policy_decision(
            settings,
            PolicyRead::Read { size, decoded: Some(policy) },
        ) == Ok::<AutomationPolicy, Seq<char>>(policy),
        !(1 <= size <= 131_072) ==> policy_decision(
            settings,
            PolicyRead::Read { size, decoded: Some(policy) },
        ) == Err::<AutomationPolicy, Seq<char>>("Scoped automation policy size is invalid"@),
{
}

/// A policy that could not be read, is none, or breaks a rule is not in force, and the reason is
/// given.
pub proof fn a_policy_out_of_order_is_not_in_force(
    settings: AutomationSettings,
    size: usize,
    policy: AutomationPolicy,
    read: PolicyRead,
)
    requires
        1 <= size <= 131_072,
    ensures
        !policy_path_ok(text::trim(settings.policy_file@)) ==> policy_decision(settings, read)
            == Err::<AutomationPolicy, Seq<char>>("Scoped automation policy path is invalid"@),
        policy_path_ok(text::trim(settings.policy_file@)) ==> {
            &&& policy_decision(settings, PolicyRead::Unreadable) == Err::<
                AutomationPolicy,
                Seq<char>,
            >("Scoped automation policy is unavailable"@)
            &&& policy_decision(settings, PolicyRead::Read { size, decoded: None }) == Err::<
                AutomationPolicy,
                Seq<char>,
            >("Scoped automation policy is invalid"@)
            &&& policy::policy_fault(policy, text::trim(settings.org@)) matches Some(fault)
                ==> policy_decision(settings, PolicyRead::Read { size, decoded: Some(policy) })
                == Err::<AutomationPolicy, Seq<char>>(fault)
        },
{
}

/// The four methods that are told apart go by their names, in capital letters; no other name is
/// taken for one of them.
pub proof fn methods_go_by_their_names(name: Seq<char>)
    ensures
        method_named(name) == Method::Get <==> name == "GET"@,
        method_named(name) == Method::Post <==> name == "POST"@,
        method_named(name) == Method::Put <==> name == "PUT"@,
        method_named(name) == Method::Delete <==> name == "DELETE"@,
{
    reveal_strlit("GET");
    reveal_strlit("POST");
    reveal_strlit("PUT");
    reveal_strlit("DELETE");
    assert("GET"@[0] == 'G' && "PUT"@[0] == 'P' && "POST"@.len() == 4 && "DELETE"@.len() == 6);
}

/// Where two of the three credentials are the same, or one of them cannot be had, nobody is let in.
pub proof fn credentials_are_three_and_distinct(
    user_id: Seq<char>,
    password: Seq<char>,
    path: Seq<char>,
    method: Method,
    settings: AutomationSettings,
    files: SecretFiles,
)
    requires
        credentials_decision(user_id, password, path, method, settings, files) matches Some(Ok(_)),
    ensures
        secret_of(settings.ingest_token_file@, text::text_view(files.ingest)) matches Ok(ingest)
            && secret_of(settings.query_token_file@, text::text_view(files.query)) matches Ok(query)
            && secret_of(
            settings.dashboard_token_file@,
            text::text_view(files.dashboard),
        ) matches Ok(dashboard) && ingest != query && ingest != dashboard && query != dashboard,
{
}

/// The three credentials are had exactly where each is one and no two have the same digest; else
/// the first that is missing says why, and after that that they are not distinct.
pub proof fn the_first_missing_credential_is_named(
    settings: AutomationSettings,
    files: SecretFiles,
)
    ensures
        secret_of(settings.ingest_token_file@, text::text_view(files.ingest)) matches Err(fault)
            ==> secrets_of(settings, files) == Err::<(Seq<char>, Seq<char>, Seq<char>), Seq<char>>(
            fault,
        ),
        secret_of(settings.ingest_token_file@, text::text_view(files.ingest)) is Ok ==> (secret_of(
            settings.query_token_file@,
            text::text_view(files.query),
        ) matches Err(fault) ==> secrets_of(settings, files) == Err::<
            (Seq<char>, Seq<char>, Seq<char>),
            Seq<char>,
        >(fault)),
        secret_of(settings.ingest_token_file@, text::text_view(files.ingest)) is Ok && secret_of(
            settings.query_token_file@,
            text::text_view(files.query),
        ) is Ok ==> (secret_of(
            settings.dashboard_token_file@,
            text::text_view(files.dashboard),
        ) matches Err(fault) ==> secrets_of(settings, files) == Err::<
            (Seq<char>, Seq<char>, Seq<char>),
            Seq<char>,
        >(fault)),
        secret_of(settings.ingest_token_file@, text::text_view(files.ingest)) matches Ok(ingest)
            ==> (secret_of(
            settings.query_token_file@,
            text::text_view(files.query),
        ) matches Ok(query) ==> (secret_of(
            settings.dashboard_token_file@,
            text::text_view(files.dashboard),
        ) matches Ok(dashboard) ==> (digest::same_digest(ingest, query) || digest::same_digest(
            ingest,
            dashboard,
        ) || digest::same_digest(query, dashboard) ==> secrets_of(settings, files) == Err::<
            (Seq<char>, Seq<char>, Seq<char>),
            Seq<char>,
        >("Scoped automation credentials must be distinct"@)))),
{
}

/// One slash before a path is taken off, and no more than one.
pub proof fn one_leading_slash_comes_off(path: Seq<char>)
    ensures
        relative_path(seq!['/'] + path) == path,
        path.len() == 0 || path[0] != '/' ==> relative_path(path) == path,
{
    reveal_strlit("/");
    let slash = "/"@;
    assert(slash =~= seq!['/']);
    text::a_prefix_comes_off(slash, path, seq!['/'] + path);
    if slash.is_prefix_of(path) {
        assert(path.take(1)[0] == path[0]);
    }
}

/// A reserved identity that is not let in is told why: that the automation is unavailable, that the
/// operation is outside its scope, or what is wrong with the credentials, in this order. Its
/// password makes no difference to the first two.
pub proof fn a_reserved_identity_is_told_why(
    capability: Capability,
    password: Seq<char>,
    path: Seq<char>,
    method: Method,
    settings: AutomationSettings,
    files: SecretFiles,
)
    ensures
        !settings.enabled || !policy::org_ok(text::trim(settings.org@)) ==> credentials_decision(
            capability.identity_text(),
            password,
            path,
            method,
            settings,
            files,
        ) == Some(
            Err::<Capability, AuthErrorView>(
                AuthErrorView::Forbidden("Scoped automation is unavailable"@),
            ),
        ),
        settings.enabled && policy::org_ok(text::trim(settings.org@)) && !operation_ok(
            capability,
            path,
            method,
            text::trim(settings.org@),
        ) ==> credentials_decision(
            capability.identity_text(),
            password,
            seq!['/'] + path,
            method,
            settings,
            files,
        ) == Some(
            Err::<Capability, AuthErrorView>(
                AuthErrorView::Forbidden(
                    "Scoped automation identity is not permitted for this operation"@,
                ),
            ),
        ),
        settings.enabled && policy::org_ok(text::trim(settings.org@)) && operation_ok(
            capability,
            path,
            method,
            text::trim(settings.org@),
        ) ==> (secrets_of(settings, files) matches Err(fault) ==> credentials_decision(
            capability.identity_text(),
            password,
            seq!['/'] + path,
            method,
            settings,
            files,
        ) == Some(Err::<Capability, AuthErrorView>(AuthErrorView::Forbidden(fault)))),
{
    identities_are_exact(capability, capability.identity_text());
    one_leading_slash_comes_off(path);
}

/// A credential is read from a path exactly where that is absolute, without `..`, and has three
/// names along it: `run`, one of the two directories, and a file.
pub proof fn credentials_are_read_from_nowhere_else(path: Seq<char>, file: Seq<char>)
    ensures
        secret_path_ok(path) ==> path.len() > 0 && path[0] == '/' && !text::contains_text(
            path,
            ".."@,
        ) && path_names(path).len() == 3 && (path_names(path) == seq![
            "run"@,
            "secrets"@,
            path_names(path)[2],
        ] || path_names(path) == seq!["run"@, "creator-signal-secrets"@, path_names(path)[2]]),
        path.len() > 0 && path[0] == '/' && !text::contains_text(path, ".."@) && (path_names(path)
            == seq!["run"@, "secrets"@, file] || path_names(path) == seq![
            "run"@,
            "creator-signal-secrets"@,
            file,
        ]) ==> secret_path_ok(path),
{
    let names = path_names(path);
    if secret_path_ok(path) {
        if names[1] == "secrets"@ {
            assert(names =~= seq!["run"@, "secrets"@, names[2]]);
        } else {
            assert(names =~= seq!["run"@, "creator-signal-secrets"@, names[2]]);
        }
    }
}

} // verus!
