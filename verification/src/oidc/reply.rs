//! Answers to the browser, and the cookies that go with them.

use crate::json;
use crate::json::Json;
use crate::json::JsonView;
use crate::text;
use vstd::prelude::*;
use vstd::string::*;

verus! {

/// An answer.
#[derive(Debug)]
pub struct Reply {
    pub status: u16,
    pub headers: Vec<(String, String)>,
    pub body: String,
}

/// What a [`Reply`] stands for.
pub struct ReplyView {
    pub status: u16,
    pub headers: Seq<(Seq<char>, Seq<char>)>,
    pub body: Seq<char>,
}

impl View for Reply {
    type V = ReplyView;

    open spec fn view(&self) -> ReplyView {
        ReplyView {
            status: self.status,
            headers: text::pair_views(self.headers@),
            body: self.body@,
        }
    }
}

/// The answer that says in JSON what went wrong.
pub open spec fn error_reply(status: u16, message: Seq<char>) -> ReplyView {
    ReplyView {
        status,
        headers: seq![("content-type"@, "application/json"@)],
        body: json::json_text(
            JsonView::Object(seq![("error"@, JsonView::Text(message))]),
        ).unwrap(),
    }
}

/// The answer that says in JSON what went wrong.
pub fn error_response(status: u16, message: &str) -> (reply: Reply)
    ensures
        reply@ == error_reply(status, message@),
{
    let mut fields: Vec<(String, Json)> = Vec::new();
    fields.push(("error".to_owned(), Json::Text(message.to_owned())));
    let mut headers: Vec<(String, String)> = Vec::new();
    headers.push(("content-type".to_owned(), "application/json".to_owned()));
    proof {
        json::lemma_object_view(fields);
        assert(json::field_views(fields@) =~= seq![("error"@, JsonView::Text(message@))]);
        assert(text::pair_views(headers@) =~= seq![("content-type"@, "application/json"@)]);
        reveal_with_fuel(json::writable, 2);
    }
    Reply { status, headers, body: json::write_json(&Json::Object(fields)).unwrap() }
}

/// Which requests of other sites a cookie goes with.
#[derive(Clone, Copy, Debug, PartialEq, Eq, Structural)]
pub enum SameSite {
    Lax,
    Unrestricted,
}

/// A cookie that the browser is to keep. `expires` is in seconds since the start of 1970.
#[derive(Debug)]
pub struct SetCookie {
    pub name: String,
    pub value: String,
    pub http_only: bool,
    pub secure: bool,
    pub path: String,
    pub same_site: SameSite,
    pub max_age: i64,
    pub expires: Option<i64>,
}

/// What a [`SetCookie`] stands for.
pub struct CookieView {
    pub name: Seq<char>,
    pub value: Seq<char>,
    pub http_only: bool,
    pub secure: bool,
    pub path: Seq<char>,
    pub same_site: SameSite,
    pub max_age: int,
    pub expires: Option<int>,
}

impl View for SetCookie {
    type V = CookieView;

    open spec fn view(&self) -> CookieView {
        CookieView {
            name: self.name@,
            value: self.value@,
            http_only: self.http_only,
            secure: self.secure,
            path: self.path@,
            same_site: self.same_site,
            max_age: self.max_age as int,
            expires: match self.expires {
                Some(at) => Some(at as int),
                None => None,
            },
        }
    }
}

/// The last second of the year 9999, in seconds since the start of 1970.
pub const LAST_SECOND: i64 = 253_402_300_799;

impl CookieView {
    /// The cookie expires, if at all, between 1970 and 9999.
    pub open spec fn dated(self) -> bool {
        self.expires matches Some(at) ==> 0 <= at <= LAST_SECOND
    }
}

/// What a cookie says but for the time at which it expires.
pub open spec fn cookie_line(cookie: CookieView) -> Seq<char> {
    cookie.name + "="@ + cookie.value + (if cookie.http_only {
        "; HttpOnly"@
    } else {
        Seq::empty()
    }) + "; SameSite="@ + (match cookie.same_site {
        SameSite::Lax => "Lax"@,
        SameSite::Unrestricted => "None"@,
    }) + (if cookie.secure {
        "; Secure"@
    } else {
        Seq::empty()
    }) + "; Path="@ + cookie.path + "; Max-Age="@ + text::signed_decimal(cookie.max_age)
}

/// A time as cookies write it.
pub uninterp spec fn cookie_date(at: int) -> Seq<char>;

/// What a cookie says.
pub open spec fn cookie_text(cookie: CookieView) -> Seq<char> {
    match cookie.expires {
        Some(at) => cookie_line(cookie) + "; Expires="@ + cookie_date(at),
        None => cookie_line(cookie),
    }
}

/// The text of a `Cookie` of the crate `axum_extra`: its name and value and its attributes, in the
/// order in which `Cookie` writes them. How a time is written is named, not written out.
#[verifier::external_body]
pub(crate) fn cookie_header(cookie: &SetCookie) -> (header: String)
    requires
        cookie@.dated(),
    ensures
        header@ == match cookie.expires {
            Some(at) => cookie_line(cookie@) + "; Expires="@ + cookie_date(at as int),
            None => cookie_line(cookie@),
        },
{
    let mut out = axum_extra::extract::cookie::Cookie::new(cookie.name.clone(), cookie.value.clone());
    out.set_http_only(cookie.http_only);
    out.set_secure(cookie.secure);
    out.set_path(cookie.path.clone());
    out.set_same_site(match cookie.same_site {
        SameSite::Lax => axum_extra::extract::cookie::SameSite::Lax,
        SameSite::Unrestricted => axum_extra::extract::cookie::SameSite::None,
    });
    out.set_max_age(time::Duration::seconds(cookie.max_age));
    out.set_expires(cookie.expires.and_then(|at| time::OffsetDateTime::from_unix_timestamp(at).ok()));
    out.to_string()
}

/// The cookie that binds a login to the browser that started it.
pub open spec fn bound_cookie(state: Seq<char>, max_age: int, secure: bool) -> CookieView {
    CookieView {
        name: "oidc_state"@,
        value: state,
        http_only: true,
        secure,
        path: "/"@,
        same_site: SameSite::Lax,
        max_age,
        expires: None,
    }
}

/// The cookie that binds a login to the browser that started it.
pub fn state_cookie(state: &str, max_age: i64, secure: bool) -> (cookie: SetCookie)
    ensures
        cookie@ == bound_cookie(state@, max_age as int, secure),
{
    SetCookie {
        name: "oidc_state".to_owned(),
        value: state.to_owned(),
        http_only: true,
        secure,
        path: "/".to_owned(),
        same_site: SameSite::Lax,
        max_age,
        expires: None,
    }
}

/// The cookie that takes the binding of a login back: it is empty and has expired.
pub open spec fn unbound_cookie(secure: bool) -> CookieView {
    CookieView { expires: Some(0), ..bound_cookie(Seq::empty(), 0, secure) }
}

/// The cookie that takes the binding of a login back.
pub fn removed_state_cookie(secure: bool) -> (cookie: SetCookie)
    ensures
        cookie@ == unbound_cookie(secure),
{
    let mut cookie: SetCookie = state_cookie("", 0, secure);
    proof {
        reveal_strlit("");
        assert(""@ =~= Seq::<char>::empty());
    }
    cookie.expires = Some(0);
    cookie
}

/// How cookies are configured.
#[derive(Clone, Copy, Debug)]
pub struct CookieSettings {
    pub secure_only: bool,
    pub same_site_lax: bool,
}

/// The cookie that carries a session. `encoded` is the encoded form of the tokens.
pub open spec fn session_cookie(
    encoded: Seq<char>,
    max_age: int,
    now: int,
    settings: CookieSettings,
) -> CookieView {
    CookieView {
        name: "auth_tokens"@,
        value: encoded,
        http_only: true,
        secure: settings.secure_only,
        path: "/"@,
        same_site: if settings.same_site_lax {
            SameSite::Lax
        } else {
            SameSite::Unrestricted
        },
        max_age,
        expires: Some(now + max_age),
    }
}

/// The cookie that carries a session, from the encoded form of [`auth_tokens_text`], the lifetime
/// and the time.
pub fn auth_cookie(encoded: &str, max_age: i64, now: i64, settings: CookieSettings) -> (cookie: SetCookie)
    requires
        0 <= now + max_age <= LAST_SECOND,
    ensures
        cookie@ == session_cookie(encoded@, max_age as int, now as int, settings),
{
    SetCookie {
        name: "auth_tokens".to_owned(),
        value: encoded.to_owned(),
        http_only: true,
        secure: settings.secure_only,
        path: "/".to_owned(),
        same_site: if settings.same_site_lax {
            SameSite::Lax
        } else {
            SameSite::Unrestricted
        },
        max_age,
        expires: Some(now + max_age),
    }
}

/// The tokens that a session cookie carries, as JSON: the session as access token and no refresh
/// token.
pub open spec fn auth_tokens_json(session_id: Seq<char>) -> Seq<char> {
    "{\"access_token\":"@ + json::json_string("session "@ + session_id) + ",\"refresh_token\":"@
        + json::json_string(Seq::empty()) + "}"@
}

/// The tokens that a session cookie carries, as JSON.
pub fn auth_tokens_text(session_id: &str) -> (tokens: String)
    ensures
        tokens@ == auth_tokens_json(session_id@),
{
    let access_token: String = text::joined("session ", session_id);
    let mut tokens: String = "{\"access_token\":".to_owned();
    tokens.append(json::quoted(access_token.as_str()).as_str());
    tokens.append(",\"refresh_token\":");
    tokens.append(json::quoted(String::new().as_str()).as_str());
    tokens.append("}");
    tokens
}

// ---------------------------------------------------------------------------------------------
// Laws
// ---------------------------------------------------------------------------------------------

/// No script of a page can read the cookie of a login or of a session, and both go over secure
/// connections only where that is configured, for the whole site. The two are kept apart by name.
pub proof fn cookies_are_kept_from_scripts(
    state: Seq<char>,
    encoded: Seq<char>,
    max_age: int,
    now: int,
    settings: CookieSettings,
)
    ensures
        bound_cookie(state, max_age, settings.secure_only).http_only,
        unbound_cookie(settings.secure_only).http_only,
        session_cookie(encoded, max_age, now, settings).http_only,
        bound_cookie(state, max_age, settings.secure_only).secure == settings.secure_only,
        unbound_cookie(settings.secure_only).secure == settings.secure_only,
        session_cookie(encoded, max_age, now, settings).secure == settings.secure_only,
        bound_cookie(state, max_age, settings.secure_only).same_site == SameSite::Lax,
        session_cookie(encoded, max_age, now, settings).same_site == SameSite::Lax
            <==> settings.same_site_lax,
        bound_cookie(state, max_age, settings.secure_only).path == seq!['/'],
        session_cookie(encoded, max_age, now, settings).path == seq!['/'],
        bound_cookie(state, max_age, settings.secure_only).name == "oidc_state"@,
        session_cookie(encoded, max_age, now, settings).name == "auth_tokens"@,
{
    reveal_strlit("/");
    assert("/"@ =~= seq!['/']);
}

/// A cookie lives as long as it is told to: the session until its lifetime after now, and the state
/// of a login for its lifetime. Taking the state back is to set the same cookie, empty and expired.
pub proof fn cookies_live_for_their_lifetime(
    state: Seq<char>,
    encoded: Seq<char>,
    max_age: int,
    now: int,
    settings: CookieSettings,
)
    ensures
        bound_cookie(state, max_age, settings.secure_only).max_age == max_age,
        bound_cookie(state, max_age, settings.secure_only).expires is None,
        bound_cookie(state, max_age, settings.secure_only).value == state,
        session_cookie(encoded, max_age, now, settings).max_age == max_age,
        session_cookie(encoded, max_age, now, settings).expires matches Some(at) && at - now
            == max_age,
        session_cookie(encoded, max_age, now, settings).value == encoded,
        unbound_cookie(settings.secure_only).name == bound_cookie(
            state,
            max_age,
            settings.secure_only,
        ).name,
        unbound_cookie(settings.secure_only).path == bound_cookie(
            state,
            max_age,
            settings.secure_only,
        ).path,
        unbound_cookie(settings.secure_only).same_site == SameSite::Lax,
        unbound_cookie(settings.secure_only).value.len() == 0,
        unbound_cookie(settings.secure_only).max_age == 0,
        unbound_cookie(settings.secure_only).expires == Some(0int),
{
}

/// What went wrong is said in JSON, in one field, with the status as it is given.
pub proof fn errors_are_said_in_json(status: u16, message: Seq<char>)
    ensures
        error_reply(status, message).status == status,
        error_reply(status, message).headers.len() == 1,
        error_reply(status, message).headers[0] == ("content-type"@, "application/json"@),
        json::json_text(JsonView::Object(seq![("error"@, JsonView::Text(message))])) matches Some(
            said,
        ) ==> error_reply(status, message).body == said,
{
}

/// The access token is the session behind the word `session`, and the refresh token is empty; there
/// is nothing else among the tokens.
pub proof fn tokens_hold_the_session_alone(session_id: Seq<char>)
    ensures
        auth_tokens_json(session_id) == "{\"access_token\":"@ + json::json_string(
            "session "@ + session_id,
        ) + (",\"refresh_token\":"@ + json::json_string(Seq::empty()) + "}"@),
{
    assert(auth_tokens_json(session_id) =~= "{\"access_token\":"@ + json::json_string(
        "session "@ + session_id,
    ) + (",\"refresh_token\":"@ + json::json_string(Seq::empty()) + "}"@));
}

} // verus!
