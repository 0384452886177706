//! Sessions issued by this server: login, logout, and the check of the
//! session cookie on later requests.

use vstd::prelude::*;
use crate::cookie::cookie_in_jar;
use crate::cookie::SessionCookie;
use crate::cookie::SessionCookieCodec;
use crate::cookie::SessionCookieView;
use crate::cookie::JWT_COOKIE_NAME;
use crate::error::AuthError;
use crate::error::AuthErrorView;
use crate::error::TokenFailureView;
use crate::password::PasswordVerifier;
use crate::text::same_text;
use crate::text::text_of;
use crate::token::hs256_payload;
use crate::token::hs256_signed;
use crate::token::is_token_of;
use crate::token::spec_verdict;
use crate::token::validation_clock;
use crate::token::Claims;
use crate::token::SessionTokenCodec;
use crate::token::SESSION_LIFETIME_SECS;

verus! {

/// Body of a login request.
#[derive(Clone, Debug, PartialEq, Eq)]
pub struct LoginPayload {
    username: String,
    password: String,
}

impl LoginPayload {
    /// The user name offered.
    pub closed spec fn spec_username(&self) -> Seq<char> {
        self.username@
    }

    /// The password offered.
    pub closed spec fn spec_password(&self) -> Seq<char> {
        self.password@
    }

    /// A login request with the given name and password.
    pub fn new(username: String, password: String) -> (payload: LoginPayload)
        ensures
            payload.spec_username() == username@,
            payload.spec_password() == password@,
    {
        LoginPayload { username, password }
    }

    /// Name under which the credential store is asked for the user.
    pub fn username(&self) -> (name: &str)
        ensures
            name@ == self.spec_username(),
    {
        self.username.as_str()
    }

    /// The password offered.
    pub fn password(&self) -> (password: &str)
        ensures
            password@ == self.spec_password(),
    {
        self.password.as_str()
    }
}

/// A user as shown to the client: without the password hash.
#[derive(Clone, Debug, PartialEq, Eq)]
pub struct User {
    pub id: i32,
    pub username: String,
}

/// A user as contracts speak of it.
pub struct UserView {
    pub id: i32,
    pub username: Seq<char>,
}

impl View for User {
    type V = UserView;

    open spec fn view(&self) -> UserView {
        UserView { id: self.id, username: self.username@ }
    }
}

/// A user as the credential store holds it.
#[derive(Clone, Debug, PartialEq, Eq)]
pub struct StoredUser {
    pub id: i32,
    pub username: String,
    pub password_hash: String,
}

/// A stored user as contracts speak of it.
pub struct StoredUserView {
    pub id: i32,
    pub username: Seq<char>,
    pub password_hash: Seq<char>,
}

impl View for StoredUser {
    type V = StoredUserView;

    open spec fn view(&self) -> StoredUserView {
        StoredUserView {
            id: self.id,
            username: self.username@,
            password_hash: self.password_hash@,
        }
    }
}

/// Answer of the credential store when asked for the user with exactly the
/// name given at login.
#[derive(Clone, Debug, PartialEq, Eq)]
pub enum CredentialLookup {
    /// The store could not be reached or the query failed.
    Unavailable,
    /// No user has that name.
    Unknown,
    Found(StoredUser),
}

/// An answer of the credential store as contracts speak of it.
pub enum CredentialLookupView {
    Unavailable,
    Unknown,
    Found(StoredUserView),
}

impl View for CredentialLookup {
    type V = CredentialLookupView;

    open spec fn view(&self) -> CredentialLookupView {
        match *self {
            CredentialLookup::Unavailable => CredentialLookupView::Unavailable,
            CredentialLookup::Unknown => CredentialLookupView::Unknown,
            CredentialLookup::Found(user) => CredentialLookupView::Found(user@),
        }
    }
}

/// The user a valid session cookie stands for.
#[derive(Clone, Copy, Debug, PartialEq, Eq, Structural)]
pub struct AuthenticatedUser {
    pub id: i32,
}

/// Reads the clock with `chrono::Utc::now` and takes the reading's
/// `timestamp`: whole seconds since the epoch. chrono builds a date only
/// from a day number that fits 32 bits, which keeps the seconds below
/// 2^31 * 86,400 in size, hence below 2^48; nothing else is known of the
/// value. On a machine whose clock stands before the epoch the call panics;
/// such a machine is not served.
#[verifier::external_body]
fn issue_clock() -> (now: i64)
    ensures
        -0x1_0000_0000_0000 < now < 0x1_0000_0000_0000,
{
    chrono::Utc::now().timestamp()
}

/// The stored user is the one named at login, letter for letter, and the
/// password offered is that user's.
pub open spec fn credentials_match(
    username: Seq<char>,
    password: Seq<char>,
    user: StoredUserView,
) -> bool {
    user.username == username && PasswordVerifier::spec_matches(password, user.password_hash)
}

/// What a login attempt comes to. The store must answer, the user must
/// exist under exactly the name given and the password must match; then the
/// secret must be there to sign the claims of a session that starts at
/// `now`.
pub open spec fn spec_login(
    username: Seq<char>,
    password: Seq<char>,
    lookup: CredentialLookupView,
    secret: Option<Seq<char>>,
    now: i64,
) -> Result<(UserView, SessionCookieView), AuthErrorView> {
    match lookup {
        CredentialLookupView::Unavailable => Err(AuthErrorView::Internal),
        CredentialLookupView::Unknown => Err(AuthErrorView::InvalidCredentials),
        CredentialLookupView::Found(user) => if !credentials_match(username, password, user) {
            Err(AuthErrorView::InvalidCredentials)
        } else {
            match secret {
                None => Err(AuthErrorView::Internal),
                Some(secret) => match hs256_signed(
                    Claims::spec_issued(user.id, now).spec_document(),
                    secret,
                ) {
                    None => Err(AuthErrorView::JsonWebToken(TokenFailureView::Library)),
                    Some(token) => Ok(
                        (
                            UserView { id: user.id, username: user.username },
                            SessionCookieView::carrying(token),
                        ),
                    ),
                },
            }
        },
    }
}

/// A login result as contracts speak of it.
pub open spec fn login_view(outcome: Result<(User, SessionCookie), AuthError>) -> Result<
    (UserView, SessionCookieView),
    AuthErrorView,
> {
    match outcome {
        Ok((user, cookie)) => Ok((user@, cookie@)),
        Err(error) => Err(error@),
    }
}

/// What the check of a request's cookies comes to at `now`.
pub open spec fn spec_verify(lines: Seq<Seq<char>>, secret: Option<Seq<char>>, now: u64) -> Result<
    AuthenticatedUser,
    AuthErrorView,
> {
    match cookie_in_jar(lines, JWT_COOKIE_NAME@) {
        None => Err(AuthErrorView::MissingToken),
        Some(token) => match secret {
            None => Err(AuthErrorView::Internal),
            Some(secret) => match spec_verdict(hs256_payload(token, secret), now) {
                Err(failure) => Err(AuthErrorView::JsonWebToken(failure)),
                Ok(claims) => Ok(AuthenticatedUser { id: claims.sub }),
            },
        },
    }
}

/// The result of a cookie check as contracts speak of it.
pub open spec fn verify_view(outcome: Result<AuthenticatedUser, AuthError>) -> Result<
    AuthenticatedUser,
    AuthErrorView,
> {
    match outcome {
        Ok(user) => Ok(user),
        Err(error) => Err(error@),
    }
}

/// Issues and checks the sessions of this server.
pub struct SessionAuthenticator;

impl SessionAuthenticator {
    /// Decides a login at the instant `now`, from the name and password
    /// offered, the credential store's answer when asked for that name, and
    /// the signing secret if the process has one.
    pub fn login_at(
        payload: &LoginPayload,
        lookup: CredentialLookup,
        secret: Option<&str>,
        now: i64,
    ) -> (outcome: Result<(User, SessionCookie), AuthError>)
        requires
            now + SESSION_LIFETIME_SECS <= i64::MAX,
        ensures
            login_view(outcome) == spec_login(
                payload.spec_username(),
                payload.spec_password(),
                lookup@,
                text_of(secret),
                now,
            ),
    {
        let stored = match lookup {
            CredentialLookup::Unavailable => { return Err(AuthError::Internal); },
            CredentialLookup::Unknown => { return Err(AuthError::InvalidCredentials); },
            CredentialLookup::Found(stored) => stored,
        };
        if !same_text(stored.username.as_str(), payload.username()) {
            return Err(AuthError::InvalidCredentials);
        }
        if !PasswordVerifier::matches(payload.password(), stored.password_hash.as_str()) {
            return Err(AuthError::InvalidCredentials);
        }
        let secret = match secret {
            Some(secret) => secret,
            None => { return Err(AuthError::Internal); },
        };
        let claims = Claims::issued(stored.id, now);
        match SessionTokenCodec::encode(&claims, secret) {
            Err(failure) => Err(AuthError::JsonWebToken(failure)),
            Ok(token) => Ok(
                (
                    User { id: stored.id, username: stored.username },
                    SessionCookieCodec::build(token),
                ),
            ),
        }
    }

    /// Decides a login at the present reading of the clock.
    pub fn login(
        payload: &LoginPayload,
        lookup: CredentialLookup,
        secret: Option<&str>,
    ) -> (outcome: Result<(User, SessionCookie), AuthError>)
        ensures
            exists|now: i64|
                login_view(outcome) == #[trigger] spec_login(
                    payload.spec_username(),
                    payload.spec_password(),
                    lookup@,
                    text_of(secret),
                    now,
                ),
    {
        Self::login_at(payload, lookup, secret, issue_clock())
    }

    /// The cookie that ends the session on the client's side. Nothing
    /// changes on the server: a token already issued stays good until it
    /// expires.
    pub fn logout() -> (cookie: SessionCookie)
        ensures
            cookie@ == SessionCookieView::expired(),
    {
        SessionCookieCodec::build_expired()
    }

    /// Checks the cookies of a request at the instant `now`. `lines` are
    /// the request's `Cookie` header lines.
    pub fn verify_at(lines: &Vec<String>, secret: Option<&str>, now: u64) -> (outcome: Result<
        AuthenticatedUser,
        AuthError,
    >)
        ensures
            verify_view(outcome) == spec_verify(lines.deep_view(), text_of(secret), now),
    {
        let token = match SessionCookieCodec::token_in(lines) {
            Some(token) => token,
            None => { return Err(AuthError::MissingToken); },
        };
        let secret = match secret {
            Some(secret) => secret,
            None => { return Err(AuthError::Internal); },
        };
        match SessionTokenCodec::decode_at(token.as_str(), secret, now) {
            Err(failure) => Err(AuthError::JsonWebToken(failure)),
            Ok(claims) => Ok(AuthenticatedUser { id: claims.sub }),
        }
    }

    /// Checks the cookies of a request at the present reading of the clock.
    pub fn verify(lines: &Vec<String>, secret: Option<&str>) -> (outcome: Result<
        AuthenticatedUser,
        AuthError,
    >)
        ensures
            exists|now: u64|
                verify_view(outcome) == #[trigger] spec_verify(
                    lines.deep_view(),
                    text_of(secret),
                    now,
                ),
    {
        Self::verify_at(lines, secret, validation_clock())
    }
}

/// A login is turned down for its credentials when the store knows no
/// user of the name given, when the user it answers with goes by another
/// name, or when the password is not the stored user's.
pub open spec fn credentials_fail(
    username: Seq<char>,
    password: Seq<char>,
    lookup: CredentialLookupView,
) -> bool {
    match lookup {
        CredentialLookupView::Unavailable => false,
        CredentialLookupView::Unknown => true,
        CredentialLookupView::Found(user) => !credentials_match(username, password, user),
    }
}

/// A stored user who logs in under their name with the right password is
/// granted a session, provided the process has its secret and the signer
/// yields a token. The user shown is the stored one, and the cookie carries
/// the token of claims whose subject is the user's id and whose expiry lies
/// exactly seven days after the instant of issue.
pub proof fn lemma_login_grants_full_lifetime(
    user: StoredUserView,
    password: Seq<char>,
    secret: Seq<char>,
    now: i64,
)
    requires
        PasswordVerifier::spec_matches(password, user.password_hash),
        now + SESSION_LIFETIME_SECS <= i64::MAX,
        hs256_signed(Claims::spec_issued(user.id, now).spec_document(), secret) is Some,
    ensures
        ({
            &&& spec_login(
                user.username,
                password,
                CredentialLookupView::Found(user),
                Some(secret),
                now,
            ) matches Ok((shown, cookie))
            &&& shown.id == user.id
            &&& shown.username == user.username
            &&& cookie.guarded()
            &&& exists|claims: Claims|
                {
                    &&& #[trigger] is_token_of(cookie.value, secret, claims)
                    &&& claims.sub == user.id
                    &&& claims.iat == now
                    &&& claims.exp == claims.iat + 7 * 24 * 60 * 60
                }
        }),
{
    let claims = Claims::spec_issued(user.id, now);
    assert(claims.exp == now + SESSION_LIFETIME_SECS);
    let signed = hs256_signed(claims.spec_document(), secret);
    assert(is_token_of(signed->0, secret, claims));
    assert(SessionCookieView::carrying(signed->0).value == signed->0);
}

/// Every login that fails for its credentials fails alike: an unknown name
/// and a wrong password give the same error, hence the same status and the
/// same message, whatever the secret and the hour.
pub proof fn lemma_credential_failures_alike(
    first_username: Seq<char>,
    first_password: Seq<char>,
    first: CredentialLookupView,
    first_secret: Option<Seq<char>>,
    first_now: i64,
    second_username: Seq<char>,
    second_password: Seq<char>,
    second: CredentialLookupView,
    second_secret: Option<Seq<char>>,
    second_now: i64,
)
    requires
        credentials_fail(first_username, first_password, first),
        credentials_fail(second_username, second_password, second),
    ensures
        spec_login(first_username, first_password, first, first_secret, first_now) == spec_login(
            second_username,
            second_password,
            second,
            second_secret,
            second_now,
        ),
        spec_login(first_username, first_password, first, first_secret, first_now) == Err::<
            (UserView, SessionCookieView),
            AuthErrorView,
        >(AuthErrorView::InvalidCredentials),
        AuthErrorView::InvalidCredentials.status() == 401,
        AuthErrorView::InvalidCredentials.client_message() == "invalid username or password"@,
{
}

/// A session is granted only to matching credentials: whenever a login
/// succeeds, the store has answered with a user of exactly the name given
/// whose hash the password matches, and the process has its secret.
pub proof fn lemma_session_only_for_matching_credentials(
    username: Seq<char>,
    password: Seq<char>,
    lookup: CredentialLookupView,
    secret: Option<Seq<char>>,
    now: i64,
)
    requires
        spec_login(username, password, lookup, secret, now) is Ok,
    ensures
        lookup matches CredentialLookupView::Found(user) && credentials_match(
            username,
            password,
            user,
        ),
        secret is Some,
{
}

/// A session token whose signature holds and whose claims are complete is
/// turned down once its expiry lies further back than the leeway.
pub proof fn lemma_expired_session_rejected(
    lines: Seq<Seq<char>>,
    token: Seq<char>,
    secret: Seq<char>,
    claims: Claims,
    now: u64,
)
    requires
        cookie_in_jar(lines, JWT_COOKIE_NAME@) == Some(token),
        hs256_payload(token, secret) matches Some(payload) && crate::token::spec_typed_claims(
            crate::token::spec_raw_claims(payload),
        ) == Ok::<Claims, crate::error::ClaimName>(claims),
        claims.exp + crate::token::EXPIRY_LEEWAY_SECS < now,
    ensures
        spec_verify(lines, Some(secret), now) == Err::<AuthenticatedUser, AuthErrorView>(
            AuthErrorView::JsonWebToken(TokenFailureView::Expired),
        ),
{
}

/// A user comes out of a cookie check only if the request carries the
/// session cookie, the process has its secret, the cookie's token verifies
/// under that secret, and the verified claims are complete and not expired.
/// The user is the subject of those claims.
pub proof fn lemma_granted_only_to_verified_session(
    lines: Seq<Seq<char>>,
    secret: Option<Seq<char>>,
    now: u64,
)
    requires
        spec_verify(lines, secret, now) is Ok,
    ensures
        ({
            &&& cookie_in_jar(lines, JWT_COOKIE_NAME@) matches Some(token)
            &&& secret matches Some(key)
            &&& hs256_payload(token, key) matches Some(payload)
            &&& crate::token::spec_typed_claims(crate::token::spec_raw_claims(payload)) matches Ok(
                claims,
            )
            &&& !crate::token::expired(claims.exp as int, now as int)
            &&& spec_verify(lines, secret, now)->Ok_0.id == claims.sub
        }),
{
}

/// A session lasts until its token expires and ends for good then: a
/// cookie that is accepted at some instant is accepted, for the same user,
/// at every earlier one, and a cookie that is turned down as expired stays
/// so at every later one. Nothing but the hour can end a session; a logout
/// in between changes nothing for a cookie that is still presented.
pub proof fn lemma_session_ends_with_expiry_only(
    lines: Seq<Seq<char>>,
    secret: Option<Seq<char>>,
    earlier: u64,
    later: u64,
)
    requires
        earlier <= later,
    ensures
        spec_verify(lines, secret, later) is Ok ==> spec_verify(lines, secret, earlier)
            == spec_verify(lines, secret, later),
        spec_verify(lines, secret, earlier) == Err::<AuthenticatedUser, AuthErrorView>(
            AuthErrorView::JsonWebToken(TokenFailureView::Expired),
        ) ==> spec_verify(lines, secret, later) == spec_verify(lines, secret, earlier),
{
}

/// The cookie sent at logout has an expiry, and that expiry lies before any
/// instant after the epoch, whether or not a session existed.
pub proof fn lemma_logout_cookie_in_past(now: int)
    requires
        0 < now,
    ensures
        SessionCookieView::expired().expires matches Some(instant) && instant < now,
        SessionCookieView::expired().guarded(),
{
}

} // verus!
