//! The one door through which every route authenticates its requests.
//!
//! A route states which kind of credential it wants; the request is then
//! checked by the session authenticator or by the bearer authenticator and
//! comes out as a principal or as an error. A bearer token whose issuer is
//! not yet in the key cache needs a fetch in between, which is the
//! caller's to make: [`RequestAuthenticator::begin_at`] says which address
//! to fetch, and [`RequestAuthenticator::resume_at`] takes up the answer.

use vstd::prelude::*;
use crate::bearer::principal_view;
use crate::bearer::spec_bearer_verify;
use crate::bearer::spec_resume;
use crate::bearer::BearerAuthenticator;
use crate::bearer::BearerRequest;
use crate::bearer::BearerRequestView;
use crate::bearer::BearerStep;
use crate::bearer::BearerStepView;
use crate::error::AuthError;
use crate::error::AuthErrorView;
use crate::jwks::spec_after_fetch;
use crate::jwks::FetchReply;
use crate::jwks::JwkView;
use crate::jwks::JwksCache;
use crate::principal::AuthenticatedPrincipal;
use crate::principal::PrincipalView;
use crate::session::spec_verify;
use crate::session::SessionAuthenticator;
use crate::text::decimal;
use crate::text::occurrences;
use crate::text::spec_decimal;
use crate::text::text_of;
use crate::token::validation_clock;

verus! {

/// The credential a route asks for.
#[derive(Clone, Copy, Debug, PartialEq, Eq, Structural)]
pub enum AuthMode {
    /// The route is open to everyone.
    Open,
    /// The route wants the session cookie.
    Session,
    /// The route wants an administrator's bearer token.
    Bearer,
}

/// The credentials a request brought along.
#[derive(Clone, Debug, PartialEq, Eq)]
pub struct RequestCredentials {
    /// The request's `Cookie` header lines.
    pub cookies: Vec<String>,
    /// The request's `Authorization` header.
    pub authorization: Option<String>,
}

/// Credentials as contracts speak of them.
pub struct CredentialsView {
    pub cookies: Seq<Seq<char>>,
    pub authorization: Option<Seq<char>>,
}

impl View for RequestCredentials {
    type V = CredentialsView;

    open spec fn view(&self) -> CredentialsView {
        CredentialsView {
            cookies: self.cookies.deep_view(),
            authorization: match self.authorization {
                Some(header) => Some(header@),
                None => None,
            },
        }
    }
}

/// How far the authentication of a request has come.
#[derive(Debug, PartialEq, Eq)]
pub enum AuthStep {
    /// The route asks for no credential; the request goes on without a
    /// principal.
    Anonymous,
    /// The request acts for this principal.
    Granted(AuthenticatedPrincipal),
    /// The request ends here.
    Denied(AuthError),
    /// The keys of the token's issuer have to be fetched from `url` before
    /// the token can be checked.
    FetchKeys { request: BearerRequest, url: String },
}

/// A step as contracts speak of it.
pub enum AuthStepView {
    Anonymous,
    Granted(PrincipalView),
    Denied(AuthErrorView),
    FetchKeys { request: BearerRequestView, url: Seq<char> },
}

impl View for AuthStep {
    type V = AuthStepView;

    open spec fn view(&self) -> AuthStepView {
        match *self {
            AuthStep::Anonymous => AuthStepView::Anonymous,
            AuthStep::Granted(principal) => AuthStepView::Granted(principal@),
            AuthStep::Denied(error) => AuthStepView::Denied(error@),
            AuthStep::FetchKeys { request, url } => AuthStepView::FetchKeys {
                request: request@,
                url: url@,
            },
        }
    }
}

/// A step of the bearer authenticator as a step of the facade.
pub open spec fn from_bearer(step: BearerStepView) -> AuthStepView {
    match step {
        BearerStepView::Granted(principal) => AuthStepView::Granted(principal),
        BearerStepView::Denied(error) => AuthStepView::Denied(error),
        BearerStepView::FetchKeys { request, url } => AuthStepView::FetchKeys { request, url },
    }
}

/// The principal of a session: the user's id in decimal, and no role.
pub open spec fn session_principal(id: i32) -> PrincipalView {
    PrincipalView { id: spec_decimal(id as int), role: None }
}

/// The first step for a request on a route of the given mode. The facade
/// picks the authenticator and hands on what it says.
pub open spec fn spec_begin(
    mode: AuthMode,
    credentials: CredentialsView,
    secret: Option<Seq<char>>,
    cache: Map<Seq<char>, Seq<JwkView>>,
    now: u64,
) -> AuthStepView {
    match mode {
        AuthMode::Open => AuthStepView::Anonymous,
        AuthMode::Session => match spec_verify(credentials.cookies, secret, now) {
            Ok(user) => AuthStepView::Granted(session_principal(user.id)),
            Err(error) => AuthStepView::Denied(error),
        },
        AuthMode::Bearer => from_bearer(spec_bearer_verify(credentials.authorization, cache, now)),
    }
}

/// Picks the authenticator that a route asks for.
pub struct RequestAuthenticator;

impl RequestAuthenticator {
    /// Starts the authentication of a request at the instant `now`.
    pub fn begin_at(
        mode: AuthMode,
        credentials: &RequestCredentials,
        secret: Option<&str>,
        cache: &JwksCache,
        now: u64,
    ) -> (step: AuthStep)
        ensures
            step@ == spec_begin(mode, credentials@, text_of(secret), cache@, now),
    {
        match mode {
            AuthMode::Open => AuthStep::Anonymous,
            AuthMode::Session => match SessionAuthenticator::verify_at(
                &credentials.cookies,
                secret,
                now,
            ) {
                Ok(user) => AuthStep::Granted(
                    AuthenticatedPrincipal { id: decimal(user.id as i64), role: None },
                ),
                Err(error) => AuthStep::Denied(error),
            },
            AuthMode::Bearer => {
                let header = match &credentials.authorization {
                    Some(header) => Some(header.as_str()),
                    None => None,
                };
                match BearerAuthenticator::verify_at(header, cache, now) {
                    BearerStep::Granted(principal) => AuthStep::Granted(principal),
                    BearerStep::Denied(error) => AuthStep::Denied(error),
                    BearerStep::FetchKeys { request, url } => AuthStep::FetchKeys { request, url },
                }
            },
        }
    }

    /// Starts the authentication of a request at the present reading of
    /// the clock.
    pub fn begin(
        mode: AuthMode,
        credentials: &RequestCredentials,
        secret: Option<&str>,
        cache: &JwksCache,
    ) -> (step: AuthStep)
        ensures
            exists|now: u64|
                step@ == #[trigger] spec_begin(mode, credentials@, text_of(secret), cache@, now),
    {
        Self::begin_at(mode, credentials, secret, cache, validation_clock())
    }

    /// Takes up a bearer request at the instant `now`, once the issuer has
    /// answered the fetch or failed to.
    pub fn resume_at(
        request: &BearerRequest,
        reply: &FetchReply,
        cache: &mut JwksCache,
        now: u64,
    ) -> (outcome: Result<AuthenticatedPrincipal, AuthError>)
        ensures
            principal_view(outcome) == spec_resume(request@, reply@, now),
            final(cache)@ == spec_after_fetch(old(cache)@, request@.issuer, reply@),
    {
        BearerAuthenticator::resume_at(request, reply, cache, now)
    }

    /// Takes up a bearer request at the present reading of the clock.
    pub fn resume(
        request: &BearerRequest,
        reply: &FetchReply,
        cache: &mut JwksCache,
    ) -> (outcome: Result<AuthenticatedPrincipal, AuthError>)
        ensures
            exists|now: u64|
                principal_view(outcome) == #[trigger] spec_resume(request@, reply@, now),
            final(cache)@ == spec_after_fetch(old(cache)@, request@.issuer, reply@),
    {
        Self::resume_at(request, reply, cache, validation_clock())
    }
}

/// An open route asks for nothing and grants nothing: whatever the request
/// brings along, it goes on without a principal.
pub proof fn lemma_open_route_is_anonymous(
    credentials: CredentialsView,
    secret: Option<Seq<char>>,
    cache: Map<Seq<char>, Seq<JwkView>>,
    now: u64,
)
    ensures
        spec_begin(AuthMode::Open, credentials, secret, cache, now) == AuthStepView::Anonymous,
{
}

/// A bearer token with fewer than two dots, that is with fewer than three
/// segments, ends the request on a bearer route as an invalid token: the
/// client is told 401 with the words for it, and no fetch is called for,
/// whatever the cache holds.
pub proof fn lemma_short_token_is_denied_without_fetch(
    credentials: CredentialsView,
    token: Seq<char>,
    secret: Option<Seq<char>>,
    cache: Map<Seq<char>, Seq<JwkView>>,
    now: u64,
)
    requires
        credentials.authorization matches Some(header) && crate::text::bearer_credential(header)
            == Some(token),
        occurrences(token, '.') < 2,
    ensures
        spec_begin(AuthMode::Bearer, credentials, secret, cache, now) == AuthStepView::Denied(
            AuthErrorView::InvalidToken,
        ),
        AuthErrorView::InvalidToken.status() == 401,
        AuthErrorView::InvalidToken.client_message() == "invalid authorization token"@,
{
}

/// A request without the session cookie on a route that wants a session
/// is told 401 with the words for a missing token.
pub proof fn lemma_session_route_wants_cookie(
    credentials: CredentialsView,
    secret: Option<Seq<char>>,
    cache: Map<Seq<char>, Seq<JwkView>>,
    now: u64,
)
    requires
        crate::cookie::cookie_in_jar(credentials.cookies, crate::cookie::JWT_COOKIE_NAME@) is None,
    ensures
        spec_begin(AuthMode::Session, credentials, secret, cache, now) == AuthStepView::Denied(
            AuthErrorView::MissingToken,
        ),
        AuthErrorView::MissingToken.status() == 401,
        AuthErrorView::MissingToken.client_message() == "missing authorization token"@,
{
}

/// The facade decides nothing of its own: on a session route it grants
/// and denies exactly as the session authenticator does, and passes its
/// error on unchanged.
pub proof fn lemma_session_route_follows_authenticator(
    credentials: CredentialsView,
    secret: Option<Seq<char>>,
    cache: Map<Seq<char>, Seq<JwkView>>,
    now: u64,
)
    ensures
        match spec_verify(credentials.cookies, secret, now) {
            Ok(user) => spec_begin(AuthMode::Session, credentials, secret, cache, now)
                == AuthStepView::Granted(session_principal(user.id)),
            Err(error) => spec_begin(AuthMode::Session, credentials, secret, cache, now)
                == AuthStepView::Denied(error),
        },
{
}

/// On a bearer route the facade takes the very step the bearer
/// authenticator takes, and hands on its principal, its error, or its call
/// for a fetch unchanged. Secret and cookies play no part.
pub proof fn lemma_bearer_route_follows_authenticator(
    credentials: CredentialsView,
    secret: Option<Seq<char>>,
    other_secret: Option<Seq<char>>,
    other_cookies: Seq<Seq<char>>,
    cache: Map<Seq<char>, Seq<JwkView>>,
    now: u64,
)
    ensures
        spec_begin(AuthMode::Bearer, credentials, secret, cache, now) == from_bearer(
            spec_bearer_verify(credentials.authorization, cache, now),
        ),
        spec_begin(AuthMode::Bearer, credentials, secret, cache, now) == spec_begin(
            AuthMode::Bearer,
            CredentialsView { cookies: other_cookies, authorization: credentials.authorization },
            other_secret,
            cache,
            now,
        ),
{
}

} // verus!
