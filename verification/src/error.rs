//! The failures an authentication attempt can end in, and how each is shown
//! to the client.

use vstd::prelude::*;
use vstd::string::StringExecFns;

verus! {

/// Makes `jsonwebtoken::errors::Error` known as a type that values can be
/// carried in. Nothing is claimed of what such a value holds.
#[verifier::external_type_specification]
#[verifier::external_body]
pub struct ExJwtError(jsonwebtoken::errors::Error);

/// A claim that a token has to carry.
#[derive(Clone, Copy, Debug, PartialEq, Eq, Structural)]
pub enum ClaimName {
    Sub,
    Exp,
    Iat,
    Iss,
}

/// Why a token that was handed to the verification library is not accepted.
#[derive(Debug, PartialEq, Eq)]
pub enum TokenFailure {
    /// The verification library refused the token: its shape, its signature
    /// or one of the claims it validates. Its report is kept for the log.
    Library(jsonwebtoken::errors::Error),
    /// The signature holds but the expiry instant has passed.
    Expired,
    /// The signature holds but a claim is absent or has the wrong type.
    MissingClaim(ClaimName),
}

/// A token failure without the verification library's report.
pub enum TokenFailureView {
    Library,
    Expired,
    MissingClaim(ClaimName),
}

impl View for TokenFailure {
    type V = TokenFailureView;

    open spec fn view(&self) -> TokenFailureView {
        match *self {
            TokenFailure::Library(_) => TokenFailureView::Library,
            TokenFailure::Expired => TokenFailureView::Expired,
            TokenFailure::MissingClaim(claim) => TokenFailureView::MissingClaim(claim),
        }
    }
}

/// Why a key set could not be obtained from its issuer.
#[derive(Clone, Copy, Debug, PartialEq, Eq, Structural)]
pub enum FetchFailure {
    /// No response arrived: connection failure, timeout, cancellation.
    Unreachable,
    /// The issuer answered with a status outside 200..=299.
    Status(u16),
    /// The body is not a key set document.
    Malformed,
}

/// The ways in which a request fails to authenticate. Every one of them ends
/// the request; none is retried.
#[derive(Debug, PartialEq, Eq)]
pub enum AuthError {
    /// The request carries no credential of the kind the route asks for.
    MissingToken,
    /// Unknown user or wrong password; the two are not told apart.
    InvalidCredentials,
    /// The bearer credential does not have the form of a signed token.
    InvalidToken,
    /// The token is genuine but its holder is not an administrator. Subject
    /// and observed role are kept for the audit log.
    NotAnAdmin { subject: String, role: String },
    /// The server lacks something it needs: the credential store, the
    /// signing secret.
    Internal,
    /// The issuer's key set could not be obtained.
    KeyFetch(FetchFailure),
    /// The token did not pass verification.
    JsonWebToken(TokenFailure),
}

/// An authentication failure as contracts speak of it.
pub enum AuthErrorView {
    MissingToken,
    InvalidCredentials,
    InvalidToken,
    NotAnAdmin { subject: Seq<char>, role: Seq<char> },
    Internal,
    KeyFetch(FetchFailure),
    JsonWebToken(TokenFailureView),
}

impl View for AuthError {
    type V = AuthErrorView;

    open spec fn view(&self) -> AuthErrorView {
        match *self {
            AuthError::MissingToken => AuthErrorView::MissingToken,
            AuthError::InvalidCredentials => AuthErrorView::InvalidCredentials,
            AuthError::InvalidToken => AuthErrorView::InvalidToken,
            AuthError::NotAnAdmin { subject, role } => AuthErrorView::NotAnAdmin {
                subject: subject@,
                role: role@,
            },
            AuthError::Internal => AuthErrorView::Internal,
            AuthError::KeyFetch(failure) => AuthErrorView::KeyFetch(failure),
            AuthError::JsonWebToken(failure) => AuthErrorView::JsonWebToken(failure@),
        }
    }
}

/// Status of a request that brought no valid credential.
pub const UNAUTHORIZED: u16 = 401;

/// Status of a request whose holder lacks the role asked for.
pub const FORBIDDEN: u16 = 403;

/// Status of a request that failed for a fault on the server's side.
pub const INTERNAL_SERVER_ERROR: u16 = 500;

impl AuthErrorView {
    /// HTTP status under which the failure is reported.
    pub open spec fn status(self) -> u16 {
        match self {
            AuthErrorView::MissingToken => UNAUTHORIZED,
            AuthErrorView::InvalidCredentials => UNAUTHORIZED,
            AuthErrorView::InvalidToken => UNAUTHORIZED,
            AuthErrorView::JsonWebToken(_) => UNAUTHORIZED,
            AuthErrorView::NotAnAdmin { .. } => FORBIDDEN,
            AuthErrorView::Internal => INTERNAL_SERVER_ERROR,
            AuthErrorView::KeyFetch(_) => INTERNAL_SERVER_ERROR,
        }
    }

    /// The text sent to the client in the `error` field of the response
    /// body. A failed verification and a fault on the server's side are
    /// reported in general terms; what exactly went wrong stays in the log.
    pub open spec fn client_message(self) -> Seq<char> {
        match self {
            AuthErrorView::MissingToken => "missing authorization token"@,
            AuthErrorView::InvalidCredentials => "invalid username or password"@,
            AuthErrorView::InvalidToken => "invalid authorization token"@,
            AuthErrorView::NotAnAdmin { .. } => "administrator role required"@,
            AuthErrorView::JsonWebToken(_) => "An internal error occurred"@,
            AuthErrorView::Internal => "An internal error occurred"@,
            AuthErrorView::KeyFetch(_) => "An internal error occurred"@,
        }
    }
}

/// Every failure is reported as unauthorized, forbidden or a server
/// error, and a server error never says more than that it occurred.
pub proof fn lemma_statuses_and_masking(error: AuthErrorView)
    ensures
        error.status() == 401 || error.status() == 403 || error.status() == 500,
        error.status() == 500 ==> error.client_message() == "An internal error occurred"@,
        error.status() == 403 <==> error is NotAnAdmin,
        error.status() == 500 <==> error is Internal || error is KeyFetch,
{
}

/// What the client is told about a holder who is no administrator does not
/// depend on who that holder is or which role the token gave: the audit
/// record stays on the server.
pub proof fn lemma_audit_record_stays_inside(
    subject: Seq<char>,
    role: Seq<char>,
    other_subject: Seq<char>,
    other_role: Seq<char>,
)
    ensures
        (AuthErrorView::NotAnAdmin { subject, role }).client_message() == (
        AuthErrorView::NotAnAdmin { subject: other_subject, role: other_role }).client_message(),
        (AuthErrorView::NotAnAdmin { subject, role }).status() == (AuthErrorView::NotAnAdmin {
            subject: other_subject,
            role: other_role,
        }).status(),
{
}

impl AuthError {
    /// HTTP status under which the failure is reported.
    pub fn status_code(&self) -> (code: u16)
        ensures
            code == self@.status(),
    {
        match self {
            AuthError::MissingToken => UNAUTHORIZED,
            AuthError::InvalidCredentials => UNAUTHORIZED,
            AuthError::InvalidToken => UNAUTHORIZED,
            AuthError::JsonWebToken(_) => UNAUTHORIZED,
            AuthError::NotAnAdmin { .. } => FORBIDDEN,
            AuthError::Internal => INTERNAL_SERVER_ERROR,
            AuthError::KeyFetch(_) => INTERNAL_SERVER_ERROR,
        }
    }

    /// The text sent to the client in the `error` field of the response
    /// body.
    pub fn client_message(&self) -> (message: String)
        ensures
            message@ == self@.client_message(),
    {
        match self {
            AuthError::MissingToken => String::from_str("missing authorization token"),
            AuthError::InvalidCredentials => String::from_str("invalid username or password"),
            AuthError::InvalidToken => String::from_str("invalid authorization token"),
            AuthError::NotAnAdmin { .. } => String::from_str("administrator role required"),
            AuthError::JsonWebToken(_) => String::from_str("An internal error occurred"),
            AuthError::Internal => String::from_str("An internal error occurred"),
            AuthError::KeyFetch(_) => String::from_str("An internal error occurred"),
        }
    }
}

} // verus!
