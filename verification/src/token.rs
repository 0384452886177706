//! The session token: three claims signed with the process secret (HS256).

use vstd::prelude::*;
use vstd::string::StringExecFns;
use crate::error::ClaimName;
use crate::error::TokenFailure;
use crate::error::TokenFailureView;
use crate::json::json_integer;
use crate::json::json_integer_at;
use crate::text::decimal;
use crate::text::spec_decimal;

verus! {

/// Seconds a session stays valid after it was issued: seven days.
pub const SESSION_LIFETIME_SECS: i64 = 604_800;

/// Seconds by which a token may be past its expiry and still be accepted, to
/// allow for clocks that disagree: the allowance that the verification
/// library makes when it is left to compare the expiry with the clock
/// itself.
pub const EXPIRY_LEEWAY_SECS: u64 = 60;

/// What a session token states: who it was issued to, when, and until when.
#[derive(Clone, Copy, Debug, PartialEq, Eq, Structural)]
pub struct Claims {
    /// Identifier of the user.
    pub sub: i32,
    /// Expiry, in seconds since the epoch.
    pub exp: i64,
    /// Instant of issue, in seconds since the epoch.
    pub iat: i64,
}

impl Claims {
    /// The claims carry the expiry that issuance gives them.
    pub open spec fn full_lifetime(self) -> bool {
        self.exp == self.iat + SESSION_LIFETIME_SECS
    }

    /// The claims of a session that starts at `now`.
    pub open spec fn spec_issued(sub: i32, now: i64) -> Claims {
        Claims { sub, exp: (now + SESSION_LIFETIME_SECS) as i64, iat: now }
    }

    /// The claims of a session of the user `sub` that starts at `now`.
    pub fn issued(sub: i32, now: i64) -> (claims: Claims)
        requires
            now + SESSION_LIFETIME_SECS <= i64::MAX,
        ensures
            claims == Claims::spec_issued(sub, now),
            claims.full_lifetime(),
            claims.sub == sub,
            claims.iat == now,
    {
        Claims { sub, exp: now + SESSION_LIFETIME_SECS, iat: now }
    }

    /// The JSON object that states the claims: subject, expiry and instant
    /// of issue, in this order, each as a number.
    pub open spec fn spec_document(self) -> Seq<char> {
        "{\"sub\":"@ + spec_decimal(self.sub as int) + ",\"exp\":"@ + spec_decimal(self.exp as int)
            + ",\"iat\":"@ + spec_decimal(self.iat as int) + "}"@
    }

    /// The JSON object that states the claims.
    pub fn document(&self) -> (text: String)
        ensures
            text@ == self.spec_document(),
    {
        let mut text = String::from_str("{\"sub\":");
        text.append(decimal(self.sub as i64).as_str());
        text.append(",\"exp\":");
        text.append(decimal(self.exp).as_str());
        text.append(",\"iat\":");
        text.append(decimal(self.iat).as_str());
        text.append("}");
        text
    }
}

/// The integer claims found in the payload of a token whose signature holds.
/// A claim is `None` when the payload lacks it or holds something other than
/// an integer that fits 64 bits.
#[derive(Clone, Copy, Debug, PartialEq, Eq, Structural)]
pub struct RawClaims {
    pub sub: Option<i64>,
    pub exp: Option<i64>,
    pub iat: Option<i64>,
}

/// The integer claims that a payload states.
pub open spec fn spec_raw_claims(payload: Seq<char>) -> RawClaims {
    RawClaims {
        sub: json_integer_at(payload, "/sub"@),
        exp: json_integer_at(payload, "/exp"@),
        iat: json_integer_at(payload, "/iat"@),
    }
}

/// Reads the integer claims out of a payload.
pub fn raw_claims(payload: &str) -> (raw: RawClaims)
    ensures
        raw == spec_raw_claims(payload@),
{
    RawClaims {
        sub: json_integer(payload, "/sub"),
        exp: json_integer(payload, "/exp"),
        iat: json_integer(payload, "/iat"),
    }
}

/// The typed claims in `raw`, or the first claim that is absent or out of range.
pub open spec fn spec_typed_claims(raw: RawClaims) -> Result<Claims, ClaimName> {
    match (raw.sub, raw.exp, raw.iat) {
        (None, _, _) => Err(ClaimName::Sub),
        (Some(sub), _, _) if !(i32::MIN <= sub <= i32::MAX) => Err(ClaimName::Sub),
        (_, None, _) => Err(ClaimName::Exp),
        (_, _, None) => Err(ClaimName::Iat),
        (Some(sub), Some(exp), Some(iat)) => Ok(Claims { sub: sub as i32, exp, iat }),
    }
}

/// The typed claims in `raw`, or the first claim that is absent or out of
/// range.
pub fn typed_claims(raw: RawClaims) -> (claims: Result<Claims, ClaimName>)
    ensures
        claims == spec_typed_claims(raw),
{
    let sub = match raw.sub {
        Some(sub) => sub,
        None => { return Err(ClaimName::Sub); },
    };
    if sub < -2147483648 || sub > 2147483647 {
        return Err(ClaimName::Sub);
    }
    let exp = match raw.exp {
        Some(exp) => exp,
        None => { return Err(ClaimName::Exp); },
    };
    let iat = match raw.iat {
        Some(iat) => iat,
        None => { return Err(ClaimName::Iat); },
    };
    Ok(Claims { sub: sub as i32, exp, iat })
}

/// A token with expiry `exp` is past use at `now`: more than the leeway has
/// gone by since it expired.
pub open spec fn expired(exp: int, now: int) -> bool {
    exp + EXPIRY_LEEWAY_SECS < now
}

/// Whether a token with expiry `exp` is past use at `now`.
pub fn is_expired(exp: i64, now: u64) -> (past: bool)
    ensures
        past == expired(exp as int, now as int),
{
    exp as i128 + (EXPIRY_LEEWAY_SECS as i128) < now as i128
}

/// The token that the signing library makes of the JSON object `payload`
/// with HS256 under `secret`; `None` if it reports a failure.
pub uninterp spec fn hs256_signed(payload: Seq<char>, secret: Seq<char>) -> Option<Seq<char>>;

/// What the verification library makes of `token` under `secret` when it
/// checks everything but the hour: the payload, as JSON text, if it accepts
/// the text as a token signed with HS256 under `secret`, `None` if it
/// refuses it.
pub uninterp spec fn hs256_payload(token: Seq<char>, secret: Seq<char>) -> Option<Seq<char>>;

/// `token` is what the signing library makes of `claims` under `secret`.
pub open spec fn is_token_of(token: Seq<char>, secret: Seq<char>, claims: Claims) -> bool {
    hs256_signed(claims.spec_document(), secret) == Some(token)
}

/// Calls `serde_json::from_str` on `payload` and `jsonwebtoken::encode` on
/// the value it gives, with the default header (HS256, type JWT) and the
/// bytes of `secret` as HMAC key. The calls read nothing but these; the
/// outcome is named `hs256_signed` and nothing more is claimed of it.
#[verifier::external_body]
fn sign_payload(payload: &str, secret: &str) -> (token: Result<String, jsonwebtoken::errors::Error>)
    ensures
        match token {
            Ok(t) => hs256_signed(payload@, secret@) == Some(t@),
            Err(_) => hs256_signed(payload@, secret@) is None,
        },
{
    let body: serde_json::Value = serde_json::from_str(payload)?;
    let key = jsonwebtoken::EncodingKey::from_secret(secret.as_bytes());
    jsonwebtoken::encode(&jsonwebtoken::Header::default(), &body, &key)
}

/// Calls `jsonwebtoken::decode` with the bytes of `secret` as HMAC key and
/// the default validation for HS256, except that the comparison of `exp`
/// with the clock is switched off: the library still checks shape, algorithm
/// and signature, refuses a payload without a numeric `exp` and one that
/// names an audience. With the clock left out the call reads nothing but
/// `token` and `secret`. The payload comes back as a `serde_json::Value`
/// and is handed out as the JSON text that `Value::to_string` gives; the
/// outcome is named `hs256_payload`.
#[verifier::external_body]
fn open_token(token: &str, secret: &str) -> (payload: Result<String, jsonwebtoken::errors::Error>)
    ensures
        match payload {
            Ok(text) => hs256_payload(token@, secret@) == Some(text@),
            Err(_) => hs256_payload(token@, secret@) is None,
        },
{
    let mut rules = jsonwebtoken::Validation::new(jsonwebtoken::Algorithm::HS256);
    rules.validate_exp = false;
    let key = jsonwebtoken::DecodingKey::from_secret(secret.as_bytes());
    Ok(jsonwebtoken::decode::<serde_json::Value>(token, &key, &rules)?.claims.to_string())
}

/// Reads the clock with `jsonwebtoken::get_current_timestamp`, the reading
/// the verification library itself compares expiries with: whole seconds
/// since the epoch. Nothing is known of the value. On a machine whose clock
/// stands before the epoch the call panics; such a machine is not served.
#[verifier::external_body]
pub(crate) fn validation_clock() -> (now: u64) {
    jsonwebtoken::get_current_timestamp()
}

/// The verdict at `now` on claims that signature verification brought out
/// of a token: all three must be integers of their type, and the expiry
/// must not lie further back than the leeway.
pub open spec fn spec_accept(raw: RawClaims, now: u64) -> Result<Claims, TokenFailureView> {
    match spec_typed_claims(raw) {
        Err(claim) => Err(TokenFailureView::MissingClaim(claim)),
        Ok(claims) => if expired(claims.exp as int, now as int) {
            Err(TokenFailureView::Expired)
        } else {
            Ok(claims)
        },
    }
}

/// The verdict on a token at `now`, given what the verification library
/// made of it: refused by the library, a claim missing, expired, or good.
pub open spec fn spec_verdict(opened: Option<Seq<char>>, now: u64) -> Result<
    Claims,
    TokenFailureView,
> {
    match opened {
        None => Err(TokenFailureView::Library),
        Some(payload) => spec_accept(spec_raw_claims(payload), now),
    }
}

/// A decoding result as contracts speak of it.
pub open spec fn verdict_view(claims: Result<Claims, TokenFailure>) -> Result<
    Claims,
    TokenFailureView,
> {
    match claims {
        Ok(claims) => Ok(claims),
        Err(failure) => Err(failure@),
    }
}

/// Encoding and decoding of session tokens.
pub struct SessionTokenCodec;

impl SessionTokenCodec {
    /// Signs `claims` with `secret`.
    pub fn encode(claims: &Claims, secret: &str) -> (token: Result<String, TokenFailure>)
        ensures
            match token {
                Ok(t) => is_token_of(t@, secret@, *claims),
                Err(failure) => failure@ == TokenFailureView::Library && hs256_signed(
                    claims.spec_document(),
                    secret@,
                ) is None,
            },
    {
        match sign_payload(claims.document().as_str(), secret) {
            Ok(token) => Ok(token),
            Err(refusal) => Err(TokenFailure::Library(refusal)),
        }
    }

    /// Judges the claims that signature verification brought out of a token.
    pub fn accept(raw: RawClaims, now: u64) -> (claims: Result<Claims, TokenFailure>)
        ensures
            verdict_view(claims) == spec_accept(raw, now),
    {
        match typed_claims(raw) {
            Err(claim) => Err(TokenFailure::MissingClaim(claim)),
            Ok(claims) => if is_expired(claims.exp, now) {
                Err(TokenFailure::Expired)
            } else {
                Ok(claims)
            },
        }
    }

    /// Verifies `token` against `secret` and judges its claims at `now`.
    pub fn decode_at(token: &str, secret: &str, now: u64) -> (claims: Result<Claims, TokenFailure>)
        ensures
            verdict_view(claims) == spec_verdict(hs256_payload(token@, secret@), now),
    {
        match open_token(token, secret) {
            Err(refusal) => Err(TokenFailure::Library(refusal)),
            Ok(payload) => Self::accept(raw_claims(payload.as_str()), now),
        }
    }

    /// Verifies `token` against `secret` and judges its claims at the
    /// present reading of the clock.
    pub fn decode(token: &str, secret: &str) -> (claims: Result<Claims, TokenFailure>)
        ensures
            exists|now: u64|
                verdict_view(claims) == #[trigger] spec_verdict(
                    hs256_payload(token@, secret@),
                    now,
                ),
    {
        Self::decode_at(token, secret, validation_clock())
    }
}

} // verus!
