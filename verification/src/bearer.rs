//! Tokens signed by an external identity provider and presented in the
//! `Authorization` header. Only administrators are admitted this way.
//!
//! The issuer named in a token decides which key set the signature is
//! checked against, and it is read from the token before any signature has
//! been checked. Whoever can publish a key set under some address can
//! therefore have a token of their own making verified against it; no list
//! of accepted issuers stands in the way.

use vstd::prelude::*;
use vstd::string::StringExecFns;
use crate::error::AuthError;
use crate::error::AuthErrorView;
use crate::error::ClaimName;
use crate::error::TokenFailure;
use crate::error::TokenFailureView;
use crate::json::json_integer;
use crate::json::json_integer_at;
use crate::json::json_text;
use crate::json::json_text_at;
use crate::json::json_texts;
use crate::jwks::spec_after_fetch;
use crate::jwks::spec_fetched;
use crate::jwks::spec_find;
use crate::jwks::spec_resolve;
use crate::jwks::FetchReply;
use crate::jwks::FetchReplyView;
use crate::jwks::JwkSet;
use crate::jwks::JwkView;
use crate::jwks::JwksCache;
use crate::jwks::KeyResolution;
use crate::jwks::KeyResolutionView;
use crate::principal::AuthenticatedPrincipal;
use crate::principal::PrincipalView;
use crate::principal::ADMIN_ROLE;
use crate::text::bearer_credential;
use crate::text::bearer_token;
use crate::text::opt_text;
use crate::text::same_text;
use crate::text::spec_payload;
use crate::text::split_token;
use crate::text::text_of;
use crate::text::well_segmented;
use crate::token::expired;
use crate::token::is_expired;
use crate::token::validation_clock;

verus! {

/// The claims of an external token as they were read from its payload once
/// the signature held. A text claim is `None` when the payload lacks it or
/// holds something other than a text, `exp` when it is not an integer that
/// fits 64 bits. The role is the member `role` of the object `metadata`.
#[derive(Debug, PartialEq, Eq)]
pub struct RawExternalClaims {
    pub iss: Option<String>,
    pub sub: Option<String>,
    pub role: Option<String>,
    pub sid: Option<String>,
    pub exp: Option<i64>,
}

/// Raw external claims as contracts speak of them.
pub struct RawExternalClaimsView {
    pub iss: Option<Seq<char>>,
    pub sub: Option<Seq<char>>,
    pub role: Option<Seq<char>>,
    pub sid: Option<Seq<char>>,
    pub exp: Option<i64>,
}

impl View for RawExternalClaims {
    type V = RawExternalClaimsView;

    open spec fn view(&self) -> RawExternalClaimsView {
        RawExternalClaimsView {
            iss: opt_text(self.iss),
            sub: opt_text(self.sub),
            role: opt_text(self.role),
            sid: opt_text(self.sid),
            exp: self.exp,
        }
    }
}

/// What an external token states about its holder.
#[derive(Debug, PartialEq, Eq)]
pub struct ExternalClaims {
    pub iss: String,
    pub sub: String,
    /// Empty when the token names no role.
    pub role: String,
    pub sid: Option<String>,
}

/// External claims as contracts speak of them.
pub struct ExternalClaimsView {
    pub iss: Seq<char>,
    pub sub: Seq<char>,
    pub role: Seq<char>,
    pub sid: Option<Seq<char>>,
}

impl View for ExternalClaims {
    type V = ExternalClaimsView;

    open spec fn view(&self) -> ExternalClaimsView {
        ExternalClaimsView {
            iss: self.iss@,
            sub: self.sub@,
            role: self.role@,
            sid: opt_text(self.sid),
        }
    }
}

/// The typed claims in `raw`: issuer and subject must be there, a role that
/// is not stands as the empty text.
pub open spec fn spec_external(raw: RawExternalClaimsView) -> Result<
    ExternalClaimsView,
    ClaimName,
> {
    match (raw.iss, raw.sub) {
        (None, _) => Err(ClaimName::Iss),
        (_, None) => Err(ClaimName::Sub),
        (Some(iss), Some(sub)) => Ok(
            ExternalClaimsView {
                iss,
                sub,
                role: match raw.role {
                    Some(role) => role,
                    None => Seq::empty(),
                },
                sid: raw.sid,
            },
        ),
    }
}

/// Typed claims, or the claim that is missing, as contracts speak of them.
pub open spec fn external_view(claims: Result<ExternalClaims, ClaimName>) -> Result<
    ExternalClaimsView,
    ClaimName,
> {
    match claims {
        Ok(claims) => Ok(claims@),
        Err(claim) => Err(claim),
    }
}

impl ExternalClaims {
    /// The typed claims in `raw`, or the claim that is missing.
    pub fn from_raw(raw: RawExternalClaims) -> (claims: Result<ExternalClaims, ClaimName>)
        ensures
            external_view(claims) == spec_external(raw@),
    {
        let iss = match raw.iss {
            Some(iss) => iss,
            None => { return Err(ClaimName::Iss); },
        };
        let sub = match raw.sub {
            Some(sub) => sub,
            None => { return Err(ClaimName::Sub); },
        };
        let role = match raw.role {
            Some(role) => role,
            None => String::new(),
        };
        Ok(ExternalClaims { iss, sub, role, sid: raw.sid })
    }
}

/// The claims that a payload states.
pub open spec fn spec_raw_external(payload: Seq<char>) -> RawExternalClaimsView {
    RawExternalClaimsView {
        iss: json_text_at(payload, "/iss"@),
        sub: json_text_at(payload, "/sub"@),
        role: json_text_at(payload, "/metadata/role"@),
        sid: json_text_at(payload, "/sid"@),
        exp: json_integer_at(payload, "/exp"@),
    }
}

impl RawExternalClaims {
    /// Reads the claims out of a payload.
    pub fn read(payload: &str) -> (raw: RawExternalClaims)
        ensures
            raw@ == spec_raw_external(payload@),
    {
        let mut pointers: Vec<String> = Vec::new();
        pointers.push(String::from_str("/iss"));
        pointers.push(String::from_str("/sub"));
        pointers.push(String::from_str("/metadata/role"));
        pointers.push(String::from_str("/sid"));
        let mut texts = json_texts(payload, &pointers);
        let sid = texts.pop().unwrap();
        let role = texts.pop().unwrap();
        let sub = texts.pop().unwrap();
        let iss = texts.pop().unwrap();
        RawExternalClaims { iss, sub, role, sid, exp: json_integer(payload, "/exp") }
    }
}

/// The key id that the verification library reads from the header of
/// `token` without checking any signature; `None` when it cannot read a
/// header or the header names no key.
pub uninterp spec fn header_key_id(token: Seq<char>) -> Option<Seq<char>>;

/// The text whose UTF-8 bytes `text` stands for in base64url without
/// padding; `None` when it is no such encoding.
pub uninterp spec fn base64url_text(text: Seq<char>) -> Option<Seq<char>>;

/// What the verification library makes of `token` under the RSA key with
/// modulus `n` and exponent `e` when `issuer` is the one issuer it accepts
/// and it checks everything but the hour: the payload, as JSON text, if it
/// accepts the text as a token signed with RS256 under that key, `None` if
/// it refuses the token or the key.
pub uninterp spec fn rs256_payload(
    token: Seq<char>,
    n: Seq<char>,
    e: Seq<char>,
    issuer: Seq<char>,
) -> Option<Seq<char>>;

/// Calls `jsonwebtoken::decode_header`, which checks no signature, and
/// takes the header's `kid`. The call reads `token` alone; its outcome is
/// named `header_key_id`, an error standing as `None`.
#[verifier::external_body]
fn read_key_id(token: &str) -> (kid: Option<String>)
    ensures
        opt_text(kid) == header_key_id(token@),
{
    jsonwebtoken::decode_header(token).ok()?.kid
}

/// Calls `decode` of `base64::engine::general_purpose::URL_SAFE_NO_PAD`
/// and `String::from_utf8` on the bytes it gives. The calls read `text`
/// alone; the outcome is named `base64url_text`, an error of either
/// standing as `None`.
#[verifier::external_body]
fn decode_base64url(text: &str) -> (decoded: Option<String>)
    ensures
        opt_text(decoded) == base64url_text(text@),
{
    let bytes = base64::Engine::decode(&base64::engine::general_purpose::URL_SAFE_NO_PAD, text);
    String::from_utf8(bytes.ok()?).ok()
}

/// Calls `jsonwebtoken::DecodingKey::from_rsa_components` on `n` and `e`,
/// then `jsonwebtoken::decode` with the validation for RS256 in which
/// `issuer` is the one accepted issuer and the comparison of `exp` with the
/// clock is switched off: the library still checks shape, algorithm and
/// signature, refuses a payload without a numeric `exp`, one that names
/// another issuer and one that names an audience. With the clock left out
/// the call reads nothing but its arguments. The payload comes back as a
/// `serde_json::Value` and is handed out as the JSON text that
/// `Value::to_string` gives; the outcome is named `rs256_payload`.
#[verifier::external_body]
fn open_external(token: &str, n: &str, e: &str, issuer: &str) -> (payload: Result<
    String,
    jsonwebtoken::errors::Error,
>)
    ensures
        match payload {
            Ok(text) => rs256_payload(token@, n@, e@, issuer@) == Some(text@),
            Err(_) => rs256_payload(token@, n@, e@, issuer@) is None,
        },
{
    let key = jsonwebtoken::DecodingKey::from_rsa_components(n, e)?;
    let mut rules = jsonwebtoken::Validation::new(jsonwebtoken::Algorithm::RS256);
    rules.set_issuer(&[issuer]);
    rules.validate_exp = false;
    Ok(jsonwebtoken::decode::<serde_json::Value>(token, &key, &rules)?.claims.to_string())
}

/// A bearer credential that has the form of a token: the token itself, the
/// id of the key it claims to be signed with, and the issuer it claims to
/// come from. Nothing in it has been verified.
#[derive(Clone, Debug, PartialEq, Eq)]
pub struct BearerRequest {
    pub token: String,
    pub kid: String,
    pub issuer: String,
}

/// A bearer request as contracts speak of it.
pub struct BearerRequestView {
    pub token: Seq<char>,
    pub kid: Seq<char>,
    pub issuer: Seq<char>,
}

impl View for BearerRequest {
    type V = BearerRequestView;

    open spec fn view(&self) -> BearerRequestView {
        BearerRequestView { token: self.token@, kid: self.kid@, issuer: self.issuer@ }
    }
}

/// What the look at an `Authorization` header comes to, before any key is
/// asked for. The header must be there; it must be ASCII and use the
/// `Bearer` scheme; the credential must have three segments, a header that
/// names a key, and a payload that is base64url of a JSON object with an
/// issuer.
pub open spec fn spec_inspect(authorization: Option<Seq<char>>) -> Result<
    BearerRequestView,
    AuthErrorView,
> {
    match authorization {
        None => Err(AuthErrorView::MissingToken),
        Some(header) => if !vstd::utf8::is_ascii_chars(header) {
            Err(AuthErrorView::InvalidToken)
        } else {
            match bearer_credential(header) {
                None => Err(AuthErrorView::InvalidToken),
                Some(token) => if !well_segmented(token) {
                    Err(AuthErrorView::InvalidToken)
                } else {
                    match header_key_id(token) {
                        None => Err(AuthErrorView::InvalidToken),
                        Some(kid) => match base64url_text(spec_payload(token)) {
                            None => Err(AuthErrorView::InvalidToken),
                            Some(payload) => match json_text_at(payload, "/iss"@) {
                                None => Err(AuthErrorView::InvalidToken),
                                Some(issuer) => Ok(BearerRequestView { token, kid, issuer }),
                            },
                        },
                    }
                },
            }
        },
    }
}

/// The result of a look at the header as contracts speak of it.
pub open spec fn inspect_view(outcome: Result<BearerRequest, AuthError>) -> Result<
    BearerRequestView,
    AuthErrorView,
> {
    match outcome {
        Ok(request) => Ok(request@),
        Err(error) => Err(error@),
    }
}

/// The verdict at `now` on the claims of a token whose signature holds.
/// Issuer, subject and expiry must be there; the token must not have
/// expired; and the role must be the administrator's, letter for letter.
pub open spec fn spec_judge(raw: RawExternalClaimsView, now: u64) -> Result<
    PrincipalView,
    AuthErrorView,
> {
    match spec_external(raw) {
        Err(claim) => Err(AuthErrorView::JsonWebToken(TokenFailureView::MissingClaim(claim))),
        Ok(claims) => match raw.exp {
            None => Err(
                AuthErrorView::JsonWebToken(TokenFailureView::MissingClaim(ClaimName::Exp)),
            ),
            Some(exp) => if expired(exp as int, now as int) {
                Err(AuthErrorView::JsonWebToken(TokenFailureView::Expired))
            } else if claims.role != ADMIN_ROLE@ {
                Err(AuthErrorView::NotAnAdmin { subject: claims.sub, role: claims.role })
            } else {
                Ok(PrincipalView { id: claims.sub, role: Some(ADMIN_ROLE@) })
            },
        },
    }
}

/// What the check of a bearer request against a key set comes to at `now`.
/// The set must hold the key the token names, the signature must hold under
/// it, and the claims must be an administrator's.
pub open spec fn spec_authorize(request: BearerRequestView, keys: Seq<JwkView>, now: u64) -> Result<
    PrincipalView,
    AuthErrorView,
> {
    match spec_find(keys, request.kid) {
        None => Err(AuthErrorView::InvalidToken),
        Some(key) => match rs256_payload(request.token, key.n, key.e, request.issuer) {
            None => Err(AuthErrorView::JsonWebToken(TokenFailureView::Library)),
            Some(payload) => spec_judge(spec_raw_external(payload), now),
        },
    }
}

/// The result of a check as contracts speak of it.
pub open spec fn principal_view(outcome: Result<AuthenticatedPrincipal, AuthError>) -> Result<
    PrincipalView,
    AuthErrorView,
> {
    match outcome {
        Ok(principal) => Ok(principal@),
        Err(error) => Err(error@),
    }
}

/// How far the check of a bearer credential has come.
#[derive(Debug, PartialEq, Eq)]
pub enum BearerStep {
    /// The request acts for this principal.
    Granted(AuthenticatedPrincipal),
    /// The request ends here.
    Denied(AuthError),
    /// The keys of the token's issuer are not held and have to be fetched
    /// from `url` before the token can be checked.
    FetchKeys { request: BearerRequest, url: String },
}

/// A step as contracts speak of it.
pub enum BearerStepView {
    Granted(PrincipalView),
    Denied(AuthErrorView),
    FetchKeys { request: BearerRequestView, url: Seq<char> },
}

impl View for BearerStep {
    type V = BearerStepView;

    open spec fn view(&self) -> BearerStepView {
        match *self {
            BearerStep::Granted(principal) => BearerStepView::Granted(principal@),
            BearerStep::Denied(error) => BearerStepView::Denied(error@),
            BearerStep::FetchKeys { request, url } => BearerStepView::FetchKeys {
                request: request@,
                url: url@,
            },
        }
    }
}

/// The step that a finished check amounts to.
pub open spec fn settled(outcome: Result<PrincipalView, AuthErrorView>) -> BearerStepView {
    match outcome {
        Ok(principal) => BearerStepView::Granted(principal),
        Err(error) => BearerStepView::Denied(error),
    }
}

/// What the check of an `Authorization` header comes to at `now`, given
/// the key sets held so far. A credential without the form of a token is
/// turned down at once. Otherwise the keys of the issuer it names are looked
/// up: if they are held the token is checked against them, if not they are
/// to be fetched.
pub open spec fn spec_bearer_verify(
    authorization: Option<Seq<char>>,
    cache: Map<Seq<char>, Seq<JwkView>>,
    now: u64,
) -> BearerStepView {
    match spec_inspect(authorization) {
        Err(error) => BearerStepView::Denied(error),
        Ok(request) => match spec_resolve(cache, request.issuer) {
            KeyResolutionView::Cached(keys) => settled(spec_authorize(request, keys, now)),
            KeyResolutionView::Fetch { url } => BearerStepView::FetchKeys { request, url },
        },
    }
}

/// The end of a bearer request whose keys had to be fetched: a failed
/// fetch ends it, fetched keys are what the token is checked against.
pub open spec fn spec_resume(request: BearerRequestView, reply: FetchReplyView, now: u64) -> Result<
    PrincipalView,
    AuthErrorView,
> {
    match spec_fetched(reply) {
        Err(failure) => Err(AuthErrorView::KeyFetch(failure)),
        Ok(keys) => spec_authorize(request, keys, now),
    }
}

/// Checks bearer tokens of external issuers.
pub struct BearerAuthenticator;

impl BearerAuthenticator {
    /// Reads from an `Authorization` header what is needed to find the key:
    /// the token, its key id and the issuer it names. No signature is
    /// checked and no key is asked for.
    pub fn inspect(authorization: Option<&str>) -> (outcome: Result<BearerRequest, AuthError>)
        ensures
            inspect_view(outcome) == spec_inspect(text_of(authorization)),
    {
        let header = match authorization {
            Some(header) => header,
            None => { return Err(AuthError::MissingToken); },
        };
        let token = match bearer_token(header) {
            Some(token) => token,
            None => { return Err(AuthError::InvalidToken); },
        };
        let parts = match split_token(token) {
            Some(parts) => parts,
            None => { return Err(AuthError::InvalidToken); },
        };
        let kid = match read_key_id(token) {
            Some(kid) => kid,
            None => { return Err(AuthError::InvalidToken); },
        };
        let payload = match decode_base64url(parts.payload) {
            Some(payload) => payload,
            None => { return Err(AuthError::InvalidToken); },
        };
        let issuer = match json_text(payload.as_str(), "/iss") {
            Some(issuer) => issuer,
            None => { return Err(AuthError::InvalidToken); },
        };
        Ok(BearerRequest { token: String::from_str(token), kid, issuer })
    }

    /// Judges the claims that signature verification brought out of a
    /// token.
    pub fn judge(raw: RawExternalClaims, now: u64) -> (outcome: Result<
        AuthenticatedPrincipal,
        AuthError,
    >)
        ensures
            principal_view(outcome) == spec_judge(raw@, now),
    {
        let exp = raw.exp;
        let claims = match ExternalClaims::from_raw(raw) {
            Ok(claims) => claims,
            Err(claim) => {
                return Err(AuthError::JsonWebToken(TokenFailure::MissingClaim(claim)));
            },
        };
        let exp = match exp {
            Some(exp) => exp,
            None => {
                return Err(AuthError::JsonWebToken(TokenFailure::MissingClaim(ClaimName::Exp)));
            },
        };
        if is_expired(exp, now) {
            return Err(AuthError::JsonWebToken(TokenFailure::Expired));
        }
        if !same_text(claims.role.as_str(), ADMIN_ROLE) {
            return Err(AuthError::NotAnAdmin { subject: claims.sub, role: claims.role });
        }
        Ok(AuthenticatedPrincipal { id: claims.sub, role: Some(claims.role) })
    }

    /// Checks a bearer request against the key set of its issuer at the
    /// instant `now`.
    pub fn authorize_at(request: &BearerRequest, keys: &JwkSet, now: u64) -> (outcome: Result<
        AuthenticatedPrincipal,
        AuthError,
    >)
        ensures
            principal_view(outcome) == spec_authorize(request@, keys@, now),
    {
        let key = match keys.find(request.kid.as_str()) {
            Some(key) => key,
            None => { return Err(AuthError::InvalidToken); },
        };
        match open_external(
            request.token.as_str(),
            key.n.as_str(),
            key.e.as_str(),
            request.issuer.as_str(),
        ) {
            Err(refusal) => Err(AuthError::JsonWebToken(TokenFailure::Library(refusal))),
            Ok(payload) => Self::judge(RawExternalClaims::read(payload.as_str()), now),
        }
    }

    /// Checks the `Authorization` header of a request at the instant `now`
    /// against the key sets held in `cache`, or says which key set has to
    /// be fetched first. The cache is only read, and only for this call.
    pub fn verify_at(authorization: Option<&str>, cache: &JwksCache, now: u64) -> (step: BearerStep)
        ensures
            step@ == spec_bearer_verify(text_of(authorization), cache@, now),
    {
        match Self::inspect(authorization) {
            Err(error) => BearerStep::Denied(error),
            Ok(request) => match cache.resolve(request.issuer.as_str()) {
                KeyResolution::Cached(keys) => match Self::authorize_at(&request, &keys, now) {
                    Ok(principal) => BearerStep::Granted(principal),
                    Err(error) => BearerStep::Denied(error),
                },
                KeyResolution::Fetch { url } => BearerStep::FetchKeys { request, url },
            },
        }
    }

    /// Checks the `Authorization` header of a request at the present
    /// reading of the clock.
    pub fn verify(authorization: Option<&str>, cache: &JwksCache) -> (step: BearerStep)
        ensures
            exists|now: u64|
                step@ == #[trigger] spec_bearer_verify(text_of(authorization), cache@, now),
    {
        Self::verify_at(authorization, cache, validation_clock())
    }

    /// Takes up a request at the instant `now`, once the issuer has
    /// answered the fetch or failed to. Fetched keys are held in `cache`
    /// from now on, whatever becomes of the token; after a failed fetch the
    /// cache is as it was.
    pub fn resume_at(
        request: &BearerRequest,
        reply: &FetchReply,
        cache: &mut JwksCache,
        now: u64,
    ) -> (outcome: Result<AuthenticatedPrincipal, AuthError>)
        ensures
            principal_view(outcome) == spec_resume(request@, reply@, now),
            final(cache)@ == spec_after_fetch(old(cache)@, request@.issuer, reply@),
    {
        match cache.complete(request.issuer.as_str(), reply) {
            Err(failure) => Err(AuthError::KeyFetch(failure)),
            Ok(keys) => Self::authorize_at(request, &keys, now),
        }
    }

    /// Takes up a request at the present reading of the clock.
    pub fn resume(
        request: &BearerRequest,
        reply: &FetchReply,
        cache: &mut JwksCache,
    ) -> (outcome: Result<AuthenticatedPrincipal, AuthError>)
        ensures
            exists|now: u64|
                principal_view(outcome) == #[trigger] spec_resume(request@, reply@, now),
            final(cache)@ == spec_after_fetch(old(cache)@, request@.issuer, reply@),
    {
        Self::resume_at(request, reply, cache, validation_clock())
    }
}

/// A token that the verification library does not accept under the key it
/// names is turned down, whatever its payload says of role and expiry.
pub proof fn lemma_unverified_token_rejected(
    request: BearerRequestView,
    keys: Seq<JwkView>,
    key: JwkView,
    now: u64,
)
    requires
        spec_find(keys, request.kid) == Some(key),
        rs256_payload(request.token, key.n, key.e, request.issuer) is None,
    ensures
        spec_authorize(request, keys, now) == Err::<PrincipalView, AuthErrorView>(
            AuthErrorView::JsonWebToken(TokenFailureView::Library),
        ),
        spec_authorize(request, keys, now)->Err_0.status() == 401,
{
}

/// A principal comes out of a bearer request only if the key set holds the
/// key named, the token verifies under that key, and the verified claims
/// name the subject, carry an expiry that has not passed, and give the
/// administrator's role. The principal is that subject, as administrator.
pub proof fn lemma_granted_only_to_verified_admin(
    request: BearerRequestView,
    keys: Seq<JwkView>,
    now: u64,
)
    requires
        spec_authorize(request, keys, now) is Ok,
    ensures
        ({
            &&& spec_find(keys, request.kid) matches Some(key)
            &&& rs256_payload(request.token, key.n, key.e, request.issuer) matches Some(payload)
            &&& json_text_at(payload, "/metadata/role"@) == Some(ADMIN_ROLE@)
            &&& json_text_at(payload, "/sub"@) == Some(spec_authorize(request, keys, now)->Ok_0.id)
            &&& json_integer_at(payload, "/exp"@) matches Some(exp)
            &&& !expired(exp as int, now as int)
        }),
        spec_authorize(request, keys, now)->Ok_0.is_admin(),
{
    reveal_strlit("admin");
    assert(ADMIN_ROLE@.len() == 5);
}

/// Verified claims that are complete and not expired, with any role other
/// than the administrator's, are turned down as not an administrator's,
/// with subject and role on record; the client is told 403.
pub proof fn lemma_other_role_is_no_admin(raw: RawExternalClaimsView, now: u64)
    requires
        spec_external(raw) matches Ok(claims) && claims.role != ADMIN_ROLE@,
        raw.exp matches Some(exp) && !expired(exp as int, now as int),
    ensures
        spec_judge(raw, now) == Err::<PrincipalView, AuthErrorView>(
            AuthErrorView::NotAnAdmin {
                subject: spec_external(raw)->Ok_0.sub,
                role: spec_external(raw)->Ok_0.role,
            },
        ),
        spec_judge(raw, now)->Err_0.status() == 403,
{
}

/// The role is compared letter for letter: other spellings of the word,
/// and no role at all, are not the administrator's.
pub proof fn lemma_role_is_case_sensitive()
    ensures
        "Admin"@ != ADMIN_ROLE@,
        "ADMIN"@ != ADMIN_ROLE@,
        "admin "@ != ADMIN_ROLE@,
        Seq::<char>::empty() != ADMIN_ROLE@,
{
    reveal_strlit("admin");
    reveal_strlit("Admin");
    reveal_strlit("ADMIN");
    reveal_strlit("admin ");
    assert("Admin"@[0] != "admin"@[0]);
    assert("ADMIN"@[0] != "admin"@[0]);
    assert("admin "@.len() != "admin"@.len());
    assert("admin"@.len() == 5);
}

/// A credential that fails the look at its form ends the request at once,
/// with the error of that look: no key is asked for and no fetch is called
/// for, whatever the cache holds.
pub proof fn lemma_malformed_credential_needs_no_keys(
    authorization: Option<Seq<char>>,
    cache: Map<Seq<char>, Seq<JwkView>>,
    now: u64,
)
    requires
        spec_inspect(authorization) is Err,
    ensures
        spec_bearer_verify(authorization, cache, now) == BearerStepView::Denied(
            spec_inspect(authorization)->Err_0,
        ),
{
}

/// A bearer token with fewer than two dots, that is with fewer than three
/// segments, is an invalid token: the client is told 401 with the words
/// for it, and no fetch is called for.
pub proof fn lemma_short_token_is_invalid(
    header: Seq<char>,
    token: Seq<char>,
    cache: Map<Seq<char>, Seq<JwkView>>,
    now: u64,
)
    requires
        bearer_credential(header) == Some(token),
        crate::text::occurrences(token, '.') < 2,
    ensures
        spec_bearer_verify(Some(header), cache, now) == BearerStepView::Denied(
            AuthErrorView::InvalidToken,
        ),
        AuthErrorView::InvalidToken.status() == 401,
        AuthErrorView::InvalidToken.client_message() == "invalid authorization token"@,
{
}

/// A fetch is called for only by a well-formed credential whose issuer is
/// not held, and it goes to that issuer's well-known address.
pub proof fn lemma_fetch_only_for_unseen_issuer(
    authorization: Option<Seq<char>>,
    cache: Map<Seq<char>, Seq<JwkView>>,
    now: u64,
)
    requires
        spec_bearer_verify(authorization, cache, now) is FetchKeys,
    ensures
        ({
            &&& spec_inspect(authorization) matches Ok(request)
            &&& !cache.contains_key(request.issuer)
            &&& spec_bearer_verify(authorization, cache, now) == (BearerStepView::FetchKeys {
                request,
                url: request.issuer + crate::jwks::well_known_path(),
            })
        }),
{
}

/// Once the keys of a request's issuer have been fetched, the same
/// credential is checked without a fetch, and comes to the same end as the
/// request that fetched them would at that instant.
pub proof fn lemma_no_second_fetch(
    authorization: Option<Seq<char>>,
    request: BearerRequestView,
    reply: FetchReplyView,
    cache: Map<Seq<char>, Seq<JwkView>>,
    now: u64,
)
    requires
        spec_inspect(authorization) == Ok::<BearerRequestView, AuthErrorView>(request),
        spec_fetched(reply) is Ok,
    ensures
        !(spec_bearer_verify(
            authorization,
            spec_after_fetch(cache, request.issuer, reply),
            now,
        ) is FetchKeys),
        spec_bearer_verify(authorization, spec_after_fetch(cache, request.issuer, reply), now)
            == settled(spec_resume(request, reply, now)),
{
}

} // verus!
