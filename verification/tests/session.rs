use crisma_api::cookie::SameSite;
use crisma_api::cookie::SessionCookieCodec;
use crisma_api::cookie::JWT_COOKIE_NAME;
use crisma_api::error::AuthError;
use crisma_api::error::ClaimName;
use crisma_api::error::TokenFailure;
use crisma_api::password::PasswordVerifier;
use crisma_api::session::AuthenticatedUser;
use crisma_api::session::CredentialLookup;
use crisma_api::session::LoginPayload;
use crisma_api::session::SessionAuthenticator;
use crisma_api::session::StoredUser;
use crisma_api::token::Claims;
use crisma_api::token::raw_claims;
use crisma_api::token::RawClaims;
use crisma_api::token::SessionTokenCodec;
use crisma_api::token::EXPIRY_LEEWAY_SECS;
use crisma_api::token::SESSION_LIFETIME_SECS;

const SECRET: &str = "a-test-secret-of-the-process";

const NOW: i64 = 1_700_000_000;

fn stored_admin() -> StoredUser {
    StoredUser {
        id: 7,
        username: "admin".to_string(),
        password_hash: bcrypt::hash("correct horse", 4).expect("bcrypt hash"),
    }
}

fn attempt(username: &str, password: &str) -> LoginPayload {
    LoginPayload::new(username.to_string(), password.to_string())
}

fn cookie_line(token: &str) -> Vec<String> {
    vec![format!("{}={}", JWT_COOKIE_NAME, token)]
}

fn payload_of(token: &str) -> serde_json::Value {
    let mut rules = jsonwebtoken::Validation::new(jsonwebtoken::Algorithm::HS256);
    rules.validate_exp = false;
    let key = jsonwebtoken::DecodingKey::from_secret(SECRET.as_bytes());
    jsonwebtoken::decode::<serde_json::Value>(token, &key, &rules).expect("own token").claims
}

fn signed(payload: &str) -> String {
    let body: serde_json::Value = serde_json::from_str(payload).expect("json");
    let key = jsonwebtoken::EncodingKey::from_secret(SECRET.as_bytes());
    jsonwebtoken::encode(&jsonwebtoken::Header::default(), &body, &key).expect("token")
}

#[test]
fn constants_of_the_session() {
    assert_eq!(SESSION_LIFETIME_SECS, 7 * 24 * 60 * 60);
    assert_eq!(EXPIRY_LEEWAY_SECS, 60);
    assert_eq!(JWT_COOKIE_NAME, "crisma_auth_token");
}

#[test]
fn password_matches_its_hash_only() {
    let hash = bcrypt::hash("correct horse", 4).expect("bcrypt hash");
    assert!(PasswordVerifier::matches("correct horse", &hash));
    assert!(!PasswordVerifier::matches("correct horsf", &hash));
    assert!(!PasswordVerifier::matches("", &hash));
    assert!(!PasswordVerifier::matches(&hash, &hash));
}

#[test]
fn unreadable_hash_matches_nothing() {
    assert!(!PasswordVerifier::matches("correct horse", "correct horse"));
    assert!(!PasswordVerifier::matches("", ""));
    assert!(!PasswordVerifier::matches("x", "$2b$04$tooshort"));
}

#[test]
fn login_grants_user_and_cookie() {
    let (user, cookie) = SessionAuthenticator::login_at(
        &attempt("admin", "correct horse"),
        CredentialLookup::Found(stored_admin()),
        Some(SECRET),
        NOW,
    ).expect("login");
    assert_eq!(user.id, 7);
    assert_eq!(user.username, "admin");
    assert_eq!(cookie.name, "crisma_auth_token");
    assert_eq!(cookie.path, "/");
    assert!(cookie.http_only);
    assert!(cookie.secure);
    assert_eq!(cookie.same_site, SameSite::Lax);
    assert_eq!(cookie.expires, None);
    assert_eq!(cookie.value.split('.').count(), 3);
}

#[test]
fn login_token_carries_subject_and_seven_days() {
    let (_, cookie) = SessionAuthenticator::login_at(
        &attempt("admin", "correct horse"),
        CredentialLookup::Found(stored_admin()),
        Some(SECRET),
        NOW,
    ).expect("login");
    let payload = payload_of(&cookie.value);
    assert_eq!(payload.get("sub").and_then(|v| v.as_i64()), Some(7));
    assert_eq!(payload.get("iat").and_then(|v| v.as_i64()), Some(NOW));
    assert_eq!(payload.get("exp").and_then(|v| v.as_i64()), Some(NOW + 604_800));
    assert_eq!(payload.as_object().map(|o| o.len()), Some(3));
}

#[test]
fn login_token_lists_claims_in_declared_order() {
    let claims = Claims { sub: 7, exp: 1_700_604_800, iat: 1_700_000_000 };
    let token = SessionTokenCodec::encode(&claims, SECRET).expect("token");
    let middle = token.split('.').nth(1).expect("payload");
    let bytes = base64::Engine::decode(&base64::engine::general_purpose::URL_SAFE_NO_PAD, middle)
        .expect("base64url");
    assert_eq!(
        String::from_utf8(bytes).expect("utf8"),
        "{\"sub\":7,\"exp\":1700604800,\"iat\":1700000000}"
    );
}

#[test]
fn issued_claims_last_seven_days() {
    let claims = Claims::issued(31, 1_000);
    assert_eq!(claims, Claims { sub: 31, exp: 605_800, iat: 1_000 });
    let claims = Claims::issued(-4, -604_800);
    assert_eq!(claims, Claims { sub: -4, exp: 0, iat: -604_800 });
}

#[test]
fn unknown_user_and_wrong_password_fail_alike() {
    let unknown = SessionAuthenticator::login_at(
        &attempt("admin", "correct horse"),
        CredentialLookup::Unknown,
        Some(SECRET),
        NOW,
    ).expect_err("unknown user");
    let wrong = SessionAuthenticator::login_at(
        &attempt("admin", "wrong horse"),
        CredentialLookup::Found(stored_admin()),
        Some(SECRET),
        NOW,
    ).expect_err("wrong password");
    assert_eq!(unknown, AuthError::InvalidCredentials);
    assert_eq!(wrong, AuthError::InvalidCredentials);
    assert_eq!(unknown.status_code(), wrong.status_code());
    assert_eq!(unknown.client_message(), wrong.client_message());
    assert_eq!(unknown.status_code(), 401);
    assert_eq!(unknown.client_message(), "invalid username or password");
}

#[test]
fn unreadable_stored_hash_fails_as_wrong_password() {
    let mut stored = stored_admin();
    stored.password_hash = "not a bcrypt hash".to_string();
    let outcome = SessionAuthenticator::login_at(
        &attempt("admin", "correct horse"),
        CredentialLookup::Found(stored),
        Some(SECRET),
        NOW,
    );
    assert_eq!(outcome, Err(AuthError::InvalidCredentials));
}

#[test]
fn credential_failure_does_not_depend_on_the_secret() {
    let outcome =
        SessionAuthenticator::login_at(
            &attempt("admin", "correct horse"),
            CredentialLookup::Unknown,
            None,
            NOW,
        );
    assert_eq!(outcome, Err(AuthError::InvalidCredentials));
    let outcome = SessionAuthenticator::login_at(
        &attempt("admin", "wrong horse"),
        CredentialLookup::Found(stored_admin()),
        None,
        NOW,
    );
    assert_eq!(outcome, Err(AuthError::InvalidCredentials));
}

#[test]
fn user_of_another_name_fails_as_unknown() {
    for name in ["Admin", "admin ", " admin", "administrator", "root", ""] {
        let outcome = SessionAuthenticator::login_at(
            &attempt(name, "correct horse"),
            CredentialLookup::Found(stored_admin()),
            Some(SECRET),
            NOW,
        );
        assert_eq!(outcome, Err(AuthError::InvalidCredentials));
    }
}

#[test]
fn store_failure_is_internal() {
    let outcome = SessionAuthenticator::login_at(
        &attempt("admin", "correct horse"),
        CredentialLookup::Unavailable,
        Some(SECRET),
        NOW,
    );
    assert_eq!(outcome, Err(AuthError::Internal));
}

#[test]
fn login_without_secret_is_internal() {
    let outcome = SessionAuthenticator::login_at(
        &attempt("admin", "correct horse"),
        CredentialLookup::Found(stored_admin()),
        None,
        NOW,
    );
    assert_eq!(outcome, Err(AuthError::Internal));
}

#[test]
fn login_payload_keeps_name_and_password() {
    let payload = LoginPayload::new("admin".to_string(), "correct horse".to_string());
    assert_eq!(payload.username(), "admin");
    assert_eq!(payload.password(), "correct horse");
}

#[test]
fn login_reads_the_clock() {
    let before = std::time::SystemTime::now()
        .duration_since(std::time::UNIX_EPOCH)
        .expect("clock")
        .as_secs() as i64;
    let (_, cookie) = SessionAuthenticator::login(
        &attempt("admin", "correct horse"),
        CredentialLookup::Found(stored_admin()),
        Some(SECRET),
    ).expect("login");
    let after = std::time::SystemTime::now()
        .duration_since(std::time::UNIX_EPOCH)
        .expect("clock")
        .as_secs() as i64;
    let payload = payload_of(&cookie.value);
    let iat = payload.get("iat").and_then(|v| v.as_i64()).expect("iat");
    let exp = payload.get("exp").and_then(|v| v.as_i64()).expect("exp");
    assert!(before <= iat && iat <= after);
    assert_eq!(exp, iat + 604_800);
    let user = SessionAuthenticator::verify(&cookie_line(&cookie.value), Some(SECRET)).expect("verify");
    assert_eq!(user, AuthenticatedUser { id: 7 });
}

#[test]
fn logout_cookie_expires_at_the_epoch() {
    let cookie = SessionAuthenticator::logout();
    assert_eq!(cookie.name, "crisma_auth_token");
    assert_eq!(cookie.value, "");
    assert_eq!(cookie.path, "/");
    assert!(cookie.http_only);
    assert!(cookie.secure);
    assert_eq!(cookie.same_site, SameSite::Lax);
    assert_eq!(cookie.expires, Some(0));
    let now = std::time::SystemTime::now()
        .duration_since(std::time::UNIX_EPOCH)
        .expect("clock")
        .as_secs() as i64;
    assert!(cookie.expires.expect("expiry") < now);
}

#[test]
fn session_cookie_is_found_among_others() {
    let lines = vec!["theme=dark; crisma_auth_token=abc.def.ghi; lang=pt".to_string()];
    assert_eq!(SessionCookieCodec::token_in(&lines), Some("abc.def.ghi".to_string()));
    let lines = vec!["theme=dark".to_string(), "crisma_auth_token=xyz".to_string()];
    assert_eq!(SessionCookieCodec::token_in(&lines), Some("xyz".to_string()));
}

#[test]
fn session_cookie_is_missing_without_its_name() {
    assert_eq!(SessionCookieCodec::token_in(&Vec::new()), None);
    let lines = vec!["theme=dark; lang=pt".to_string()];
    assert_eq!(SessionCookieCodec::token_in(&lines), None);
    let lines = vec!["crisma_auth_token_old=abc".to_string()];
    assert_eq!(SessionCookieCodec::token_in(&lines), None);
    let lines = vec!["Crisma_Auth_Token=abc".to_string()];
    assert_eq!(SessionCookieCodec::token_in(&lines), None);
}

#[test]
fn session_cookie_value_is_percent_decoded() {
    let lines = vec!["crisma_auth_token=a%20b".to_string()];
    assert_eq!(SessionCookieCodec::token_in(&lines), Some("a b".to_string()));
}

#[test]
fn later_cookie_of_the_same_name_wins() {
    let lines = vec!["crisma_auth_token=first; crisma_auth_token=second".to_string()];
    assert_eq!(SessionCookieCodec::token_in(&lines), Some("second".to_string()));
}

#[test]
fn built_cookie_carries_the_token() {
    let cookie = SessionCookieCodec::build("abc.def.ghi".to_string());
    assert_eq!(cookie.value, "abc.def.ghi");
    assert_eq!(cookie.name, JWT_COOKIE_NAME);
    assert_eq!(cookie.expires, None);
    let expired = SessionCookieCodec::build_expired();
    assert_eq!(expired.expires, Some(0));
}

#[test]
fn cookie_of_a_login_verifies() {
    let (_, cookie) = SessionAuthenticator::login_at(
        &attempt("admin", "correct horse"),
        CredentialLookup::Found(stored_admin()),
        Some(SECRET),
        NOW,
    ).expect("login");
    let lines = cookie_line(&cookie.value);
    let user = SessionAuthenticator::verify_at(&lines, Some(SECRET), NOW as u64 + 5).expect("verify");
    assert_eq!(user, AuthenticatedUser { id: 7 });
}

#[test]
fn request_without_cookie_is_missing_token() {
    let outcome = SessionAuthenticator::verify_at(&Vec::new(), Some(SECRET), NOW as u64);
    assert_eq!(outcome, Err(AuthError::MissingToken));
    let lines = vec!["theme=dark".to_string()];
    let outcome = SessionAuthenticator::verify_at(&lines, Some(SECRET), NOW as u64);
    assert_eq!(outcome, Err(AuthError::MissingToken));
    let outcome = SessionAuthenticator::verify_at(&lines, None, NOW as u64);
    assert_eq!(outcome, Err(AuthError::MissingToken));
}

#[test]
fn verify_without_secret_is_internal() {
    let lines = cookie_line(&signed("{\"sub\":7,\"exp\":1700604800,\"iat\":1700000000}"));
    let outcome = SessionAuthenticator::verify_at(&lines, None, NOW as u64);
    assert_eq!(outcome, Err(AuthError::Internal));
}

#[test]
fn expired_session_is_rejected() {
    let token = signed("{\"sub\":7,\"exp\":1700000000,\"iat\":1699395200}");
    let lines = cookie_line(&token);
    let outcome = SessionAuthenticator::verify_at(&lines, Some(SECRET), 1_700_000_061);
    assert_eq!(outcome, Err(AuthError::JsonWebToken(TokenFailure::Expired)));
    let outcome = SessionAuthenticator::verify_at(&lines, Some(SECRET), 1_800_000_000);
    assert_eq!(outcome, Err(AuthError::JsonWebToken(TokenFailure::Expired)));
}

#[test]
fn session_within_leeway_is_accepted() {
    let token = signed("{\"sub\":7,\"exp\":1700000000,\"iat\":1699395200}");
    let lines = cookie_line(&token);
    let user = SessionAuthenticator::verify_at(&lines, Some(SECRET), 1_700_000_000).expect("at expiry");
    assert_eq!(user.id, 7);
    let user = SessionAuthenticator::verify_at(&lines, Some(SECRET), 1_700_000_060).expect("leeway");
    assert_eq!(user.id, 7);
    let user = SessionAuthenticator::verify_at(&lines, Some(SECRET), 0).expect("long before");
    assert_eq!(user.id, 7);
}

#[test]
fn expired_session_is_rejected_by_the_clock() {
    let token = signed("{\"sub\":7,\"exp\":1000000000,\"iat\":999395200}");
    let outcome = SessionAuthenticator::verify(&cookie_line(&token), Some(SECRET));
    assert_eq!(outcome, Err(AuthError::JsonWebToken(TokenFailure::Expired)));
}

#[test]
fn tampered_session_is_rejected() {
    let token = signed("{\"sub\":7,\"exp\":1700604800,\"iat\":1700000000}");
    let mut parts: Vec<String> = token.split('.').map(|p| p.to_string()).collect();
    let forged = base64::Engine::encode(
        &base64::engine::general_purpose::URL_SAFE_NO_PAD,
        "{\"sub\":1,\"exp\":1700604800,\"iat\":1700000000}",
    );
    parts[1] = forged;
    let lines = cookie_line(&parts.join("."));
    let outcome = SessionAuthenticator::verify_at(&lines, Some(SECRET), NOW as u64);
    match outcome {
        Err(AuthError::JsonWebToken(TokenFailure::Library(refusal))) => {
            assert_eq!(*refusal.kind(), jsonwebtoken::errors::ErrorKind::InvalidSignature);
        }
        other => panic!("unexpected outcome: {:?}", other),
    }
}

#[test]
fn session_under_another_secret_is_rejected() {
    let token = signed("{\"sub\":7,\"exp\":1700604800,\"iat\":1700000000}");
    let outcome =
        SessionAuthenticator::verify_at(&cookie_line(&token), Some("another secret"), NOW as u64);
    assert!(matches!(outcome, Err(AuthError::JsonWebToken(TokenFailure::Library(_)))));
}

#[test]
fn text_that_is_no_token_is_rejected() {
    for text in ["", "abc", "a.b", "a.b.c", "a.b.c.d"] {
        let outcome = SessionAuthenticator::verify_at(&cookie_line(text), Some(SECRET), NOW as u64);
        assert!(matches!(outcome, Err(AuthError::JsonWebToken(TokenFailure::Library(_)))));
    }
}

#[test]
fn token_without_expiry_is_rejected_by_the_library() {
    let token = signed("{\"sub\":7,\"iat\":1700000000}");
    let outcome = SessionTokenCodec::decode_at(&token, SECRET, NOW as u64);
    match outcome {
        Err(TokenFailure::Library(refusal)) => {
            assert_eq!(
                *refusal.kind(),
                jsonwebtoken::errors::ErrorKind::MissingRequiredClaim("exp".to_string())
            );
        }
        other => panic!("unexpected outcome: {:?}", other),
    }
}

#[test]
fn token_with_untyped_claims_is_rejected() {
    let token = signed("{\"sub\":\"7\",\"exp\":1700604800,\"iat\":1700000000}");
    let outcome = SessionTokenCodec::decode_at(&token, SECRET, NOW as u64);
    assert_eq!(outcome, Err(TokenFailure::MissingClaim(ClaimName::Sub)));
    let token = signed("{\"exp\":1700604800,\"iat\":1700000000}");
    let outcome = SessionTokenCodec::decode_at(&token, SECRET, NOW as u64);
    assert_eq!(outcome, Err(TokenFailure::MissingClaim(ClaimName::Sub)));
    let token = signed("{\"sub\":2147483648,\"exp\":1700604800,\"iat\":1700000000}");
    let outcome = SessionTokenCodec::decode_at(&token, SECRET, NOW as u64);
    assert_eq!(outcome, Err(TokenFailure::MissingClaim(ClaimName::Sub)));
    let token = signed("{\"sub\":7,\"exp\":1700604800}");
    let outcome = SessionTokenCodec::decode_at(&token, SECRET, NOW as u64);
    assert_eq!(outcome, Err(TokenFailure::MissingClaim(ClaimName::Iat)));
    let token = signed("{\"sub\":7,\"exp\":1700604800.5,\"iat\":1700000000}");
    let outcome = SessionTokenCodec::decode_at(&token, SECRET, NOW as u64);
    assert_eq!(outcome, Err(TokenFailure::MissingClaim(ClaimName::Exp)));
}

#[test]
fn token_with_audience_is_rejected_by_the_library() {
    let token = signed("{\"sub\":7,\"exp\":1700604800,\"iat\":1700000000,\"aud\":\"other\"}");
    let outcome = SessionTokenCodec::decode_at(&token, SECRET, NOW as u64);
    assert!(matches!(outcome, Err(TokenFailure::Library(_))));
}

#[test]
fn claims_survive_encoding_and_decoding() {
    let claims = Claims { sub: -12, exp: 2_000_000_000, iat: 5 };
    let token = SessionTokenCodec::encode(&claims, SECRET).expect("token");
    assert_eq!(SessionTokenCodec::decode_at(&token, SECRET, 1_999_999_999), Ok(claims));
    let claims = Claims { sub: i32::MAX, exp: i64::MAX, iat: i64::MIN };
    let token = SessionTokenCodec::encode(&claims, SECRET).expect("token");
    assert_eq!(SessionTokenCodec::decode_at(&token, SECRET, u64::MAX), Err(TokenFailure::Expired));
    assert_eq!(SessionTokenCodec::decode_at(&token, SECRET, i64::MAX as u64 + 60), Ok(claims));
}

#[test]
fn raw_claims_are_judged() {
    let raw = RawClaims { sub: Some(3), exp: Some(100), iat: Some(40) };
    assert_eq!(SessionTokenCodec::accept(raw, 160), Ok(Claims { sub: 3, exp: 100, iat: 40 }));
    assert_eq!(SessionTokenCodec::accept(raw, 161), Err(TokenFailure::Expired));
    let raw = RawClaims { sub: Some(-2147483649), exp: Some(100), iat: Some(40) };
    assert_eq!(SessionTokenCodec::accept(raw, 0), Err(TokenFailure::MissingClaim(ClaimName::Sub)));
    let raw = RawClaims { sub: None, exp: None, iat: None };
    assert_eq!(SessionTokenCodec::accept(raw, 0), Err(TokenFailure::MissingClaim(ClaimName::Sub)));
    let raw = RawClaims { sub: Some(1), exp: None, iat: None };
    assert_eq!(SessionTokenCodec::accept(raw, 0), Err(TokenFailure::MissingClaim(ClaimName::Exp)));
    let raw = RawClaims { sub: Some(1), exp: Some(-100), iat: Some(0) };
    assert_eq!(SessionTokenCodec::accept(raw, 0), Err(TokenFailure::Expired));
    let raw = RawClaims { sub: Some(1), exp: Some(-60), iat: Some(0) };
    assert_eq!(SessionTokenCodec::accept(raw, 0), Ok(Claims { sub: 1, exp: -60, iat: 0 }));
}

#[test]
fn login_then_request_then_no_cookie() {
    let (user, cookie) = SessionAuthenticator::login_at(
        &attempt("admin", "correct horse"),
        CredentialLookup::Found(stored_admin()),
        Some(SECRET),
        NOW,
    ).expect("login");
    assert_eq!(user.username, "admin");
    assert!(cookie.http_only && cookie.secure && cookie.same_site == SameSite::Lax);
    let lines = vec![format!("{}={}", cookie.name, cookie.value)];
    let later = SessionAuthenticator::verify_at(&lines, Some(SECRET), NOW as u64 + 3_600);
    assert_eq!(later, Ok(AuthenticatedUser { id: user.id }));
    let bare = SessionAuthenticator::verify_at(&Vec::new(), Some(SECRET), NOW as u64 + 3_600)
        .expect_err("no cookie");
    assert_eq!(bare.status_code(), 401);
    assert_eq!(bare.client_message(), "missing authorization token");
}


#[test]
fn claims_are_stated_as_a_json_object() {
    let claims = Claims { sub: 7, exp: 1_700_604_800, iat: 1_700_000_000 };
    assert_eq!(claims.document(), "{\"sub\":7,\"exp\":1700604800,\"iat\":1700000000}");
    let claims = Claims { sub: -1, exp: 0, iat: -604_800 };
    assert_eq!(claims.document(), "{\"sub\":-1,\"exp\":0,\"iat\":-604800}");
    let claims = Claims { sub: i32::MIN, exp: i64::MAX, iat: i64::MIN };
    assert_eq!(
        claims.document(),
        "{\"sub\":-2147483648,\"exp\":9223372036854775807,\"iat\":-9223372036854775808}"
    );
}

#[test]
fn integer_claims_are_read_from_a_payload() {
    assert_eq!(
        raw_claims("{\"sub\":7,\"exp\":1700604800,\"iat\":1700000000}"),
        RawClaims { sub: Some(7), exp: Some(1_700_604_800), iat: Some(1_700_000_000) }
    );
    assert_eq!(
        raw_claims("{\"iat\":3,\"sub\":\"7\",\"exp\":1.5,\"extra\":[1,2]}"),
        RawClaims { sub: None, exp: None, iat: Some(3) }
    );
    assert_eq!(
        raw_claims("{\"sub\":18446744073709551615,\"exp\":-9223372036854775808}"),
        RawClaims { sub: None, exp: Some(i64::MIN), iat: None }
    );
    assert_eq!(raw_claims("not json"), RawClaims { sub: None, exp: None, iat: None });
    assert_eq!(raw_claims("[1,2,3]"), RawClaims { sub: None, exp: None, iat: None });
    assert_eq!(raw_claims(""), RawClaims { sub: None, exp: None, iat: None });
}

#[test]
fn document_of_claims_reads_back() {
    let claims = Claims { sub: 12, exp: 99, iat: -5 };
    assert_eq!(
        raw_claims(&claims.document()),
        RawClaims { sub: Some(12), exp: Some(99), iat: Some(-5) }
    );
}

#[test]
fn cookie_of_a_later_line_wins() {
    let lines = vec![
        "crisma_auth_token=first; theme=dark".to_string(),
        "lang=pt".to_string(),
        "crisma_auth_token=second".to_string(),
        "theme=light".to_string(),
    ];
    assert_eq!(SessionCookieCodec::token_in(&lines), Some("second".to_string()));
}

#[test]
fn line_that_is_no_header_value_carries_no_cookie() {
    let lines = vec![
        "crisma_auth_token=kept".to_string(),
        "crisma_auth_token=dropped\u{7}".to_string(),
        "crisma_auth_token=l\u{f6}st".to_string(),
    ];
    assert_eq!(SessionCookieCodec::token_in(&lines), Some("kept".to_string()));
}
