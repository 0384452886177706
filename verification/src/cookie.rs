//! The cookie that carries a session token.

use vstd::prelude::*;
use vstd::string::StringExecFns;
use crate::text::opt_text;

verus! {

/// Name of the cookie that holds the session token.
pub const JWT_COOKIE_NAME: &'static str = "crisma_auth_token";

/// Cross-site policy of a cookie.
#[derive(Clone, Copy, Debug, PartialEq, Eq, Structural)]
pub enum SameSite {
    Strict,
    Lax,
    /// Sent with every request, whatever its origin.
    Unrestricted,
}

/// A cookie to be set on the client.
#[derive(Clone, Debug, PartialEq, Eq)]
pub struct SessionCookie {
    pub name: String,
    pub value: String,
    pub path: String,
    pub http_only: bool,
    pub secure: bool,
    pub same_site: SameSite,
    /// Instant at which the client is to drop the cookie, in seconds since
    /// the epoch; `None` leaves that to the client.
    pub expires: Option<i64>,
}

/// A cookie as contracts speak of it.
pub struct SessionCookieView {
    pub name: Seq<char>,
    pub value: Seq<char>,
    pub path: Seq<char>,
    pub http_only: bool,
    pub secure: bool,
    pub same_site: SameSite,
    pub expires: Option<i64>,
}

impl View for SessionCookie {
    type V = SessionCookieView;

    open spec fn view(&self) -> SessionCookieView {
        SessionCookieView {
            name: self.name@,
            value: self.value@,
            path: self.path@,
            http_only: self.http_only,
            secure: self.secure,
            same_site: self.same_site,
            expires: self.expires,
        }
    }
}

impl SessionCookieView {
    /// The cookie has the session cookie's name and path, is kept from
    /// scripts, is sent over TLS only and follows top-level navigation only.
    pub open spec fn guarded(self) -> bool {
        &&& self.name == JWT_COOKIE_NAME@
        &&& self.path == "/"@
        &&& self.http_only
        &&& self.secure
        &&& self.same_site == SameSite::Lax
    }

    /// The cookie that hands `token` to the client.
    pub open spec fn carrying(token: Seq<char>) -> SessionCookieView {
        SessionCookieView {
            name: JWT_COOKIE_NAME@,
            value: token,
            path: "/"@,
            http_only: true,
            secure: true,
            same_site: SameSite::Lax,
            expires: None,
        }
    }

    /// The cookie that makes the client drop its session: no value, and an
    /// expiry at the epoch.
    pub open spec fn expired() -> SessionCookieView {
        SessionCookieView {
            name: JWT_COOKIE_NAME@,
            value: Seq::empty(),
            path: "/"@,
            http_only: true,
            secure: true,
            same_site: SameSite::Lax,
            expires: Some(0i64),
        }
    }
}

/// The value of the cookie called `name` among the cookies that one
/// `Cookie` header line carries, percent-decoded; `None` when the line
/// carries none of that name.
pub uninterp spec fn cookie_in_line(line: Seq<char>, name: Seq<char>) -> Option<Seq<char>>;

/// Calls `axum_extra::extract::CookieJar::from_headers` on a header map
/// that holds `line` as its one `Cookie` header, then `CookieJar::get` with
/// `name`, and hands out the value of the cookie found. A line that
/// `HeaderValue::from_str` does not take as a header value carries no
/// cookie. The jar is built from the line alone, so the outcome is a
/// function of `line` and `name`, named `cookie_in_line`.
#[verifier::external_body]
fn line_cookie(line: &str, name: &str) -> (value: Option<String>)
    ensures
        opt_text(value) == cookie_in_line(line@, name@),
{
    let mut headers = axum::http::HeaderMap::new();
    headers.insert(axum::http::header::COOKIE, axum::http::HeaderValue::from_str(line).ok()?);
    let jar = axum_extra::extract::CookieJar::from_headers(&headers);
    jar.get(name).map(|cookie| cookie.value().to_owned())
}

/// The value of the cookie called `name` among the cookies of a request
/// whose `Cookie` header lines are `lines`: that of the last line that
/// carries one.
pub open spec fn cookie_in_jar(lines: Seq<Seq<char>>, name: Seq<char>) -> Option<Seq<char>>
    decreases lines.len(),
{
    if lines.len() == 0 {
        None
    } else {
        match cookie_in_line(lines.last(), name) {
            Some(value) => Some(value),
            None => cookie_in_jar(lines.drop_last(), name),
        }
    }
}

/// The value of the cookie called `name` among the cookies of a request.
pub fn jar_lookup(lines: &Vec<String>, name: &str) -> (value: Option<String>)
    ensures
        opt_text(value) == cookie_in_jar(lines.deep_view(), name@),
{
    let ghost all = lines.deep_view();
    let mut found: Option<String> = None;
    let mut at: usize = 0;
    while at < lines.len()
        invariant
            at <= lines@.len(),
            all == lines.deep_view(),
            opt_text(found) == cookie_in_jar(all.take(at as int), name@),
        decreases lines@.len() - at,
    {
        proof {
            let seen = all.take(at + 1);
            assert(seen.drop_last() =~= all.take(at as int));
        }
        match line_cookie(lines[at].as_str(), name) {
            Some(value) => {
                found = Some(value);
            },
            None => {},
        }
        at = at + 1;
    }
    assert(all.take(lines@.len() as int) =~= all);
    found
}

/// Building and reading of the session cookie.
pub struct SessionCookieCodec;

impl SessionCookieCodec {
    /// The cookie that hands `token` to the client.
    pub fn build(token: String) -> (cookie: SessionCookie)
        ensures
            cookie@ == SessionCookieView::carrying(token@),
            cookie@.guarded(),
    {
        SessionCookie {
            name: String::from_str(JWT_COOKIE_NAME),
            value: token,
            path: String::from_str("/"),
            http_only: true,
            secure: true,
            same_site: SameSite::Lax,
            expires: None,
        }
    }

    /// The cookie that makes the client drop its session.
    pub fn build_expired() -> (cookie: SessionCookie)
        ensures
            cookie@ == SessionCookieView::expired(),
            cookie@.guarded(),
    {
        SessionCookie {
            name: String::from_str(JWT_COOKIE_NAME),
            value: String::new(),
            path: String::from_str("/"),
            http_only: true,
            secure: true,
            same_site: SameSite::Lax,
            expires: Some(0),
        }
    }

    /// The session token among the cookies of a request, whose `Cookie`
    /// header lines are `lines`.
    pub fn token_in(lines: &Vec<String>) -> (token: Option<String>)
        ensures
            opt_text(token) == cookie_in_jar(lines.deep_view(), JWT_COOKIE_NAME@),
    {
        jar_lookup(lines, JWT_COOKIE_NAME)
    }
}

/// The cookie sent at logout takes the place of the one sent at login: it
/// has the same name, path and guards, so the client lets it overwrite the
/// session cookie, and it carries no token.
pub proof fn lemma_logout_cookie_replaces_session_cookie(token: Seq<char>)
    ensures
        SessionCookieView::expired().name == SessionCookieView::carrying(token).name,
        SessionCookieView::expired().path == SessionCookieView::carrying(token).path,
        SessionCookieView::expired().http_only == SessionCookieView::carrying(token).http_only,
        SessionCookieView::expired().secure == SessionCookieView::carrying(token).secure,
        SessionCookieView::expired().same_site == SessionCookieView::carrying(token).same_site,
        SessionCookieView::expired().value.len() == 0,
        SessionCookieView::expired().guarded(),
        SessionCookieView::carrying(token).guarded(),
{
}

} // verus!
