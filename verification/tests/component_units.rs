use beppo_fit_backend::clock::current_time;
use beppo_fit_backend::digits::{parse_u64, u64_to_string};
use beppo_fit_backend::errors::AppError;
use beppo_fit_backend::lifecycle::{register, verify_email, RegisterRequest, VerifyTokenQuery};
use beppo_fit_backend::password::password_round_trip;
use beppo_fit_backend::session::{authorize_bearer, generate_token, session_round_trip};
use beppo_fit_backend::store::IdentityStore;
use beppo_fit_backend::tokens::{consume_check, fresh_token, TokenCheck};

const SECRET: &[u8] = b"another-secret";
const NOW: u64 = 1_700_000_000;

#[test]
fn password_hash_verify_round_trip_samples() {
    let samples: [&str; 7] = [
        "Password123!",
        "12345678",
        "p\u{00e4}ssw\u{00f6}rter sind gut",
        "\u{1f512}\u{1f511} unicode keys!",
        "a much longer passphrase with spaces and punctuation, even.",
        "        ",
        "ALLCAPSPASSWORD",
    ];
    for sample in samples {
        assert!(
            password_round_trip(sample).expect("hashing must not fail"),
            "round trip failed for {sample:?}"
        );
    }
}

#[test]
fn session_token_round_trip_for_many_ids() {
    let now = current_time();
    for id in [1u64, 2, 42, 1_000_000, u64::MAX] {
        let sub = u64_to_string(id);
        let token = generate_token(&sub, now, SECRET).expect("signing must succeed");
        let header = format!("Bearer {}", token);
        let claims = authorize_bearer(Some(&header), SECRET).expect("a fresh token validates");
        assert_eq!(claims.sub, sub);
        assert_eq!(claims.exp as u64, now + 86_400);
    }
}

#[test]
fn session_round_trip_yields_the_issued_subject() {
    let now = current_time();
    let claims = session_round_trip("90210", now, SECRET).expect("a fresh token validates");
    assert_eq!(claims.sub, "90210");
    assert_eq!(claims.exp as u64, now + 86_400);
}

#[test]
fn session_token_tampering_invalidates() {
    let now = current_time();
    let token = generate_token("7", now, SECRET).expect("signing must succeed");
    let mut tampered: Vec<char> = token.chars().collect();
    let last = tampered.len() - 1;
    tampered[last] = if tampered[last] == 'A' { 'B' } else { 'A' };
    let tampered: String = tampered.into_iter().collect();
    assert_ne!(token, tampered);
    let header = format!("Bearer {}", tampered);
    match authorize_bearer(Some(&header), SECRET) {
        Err(AppError::Unauthorized(m)) => assert_eq!(m, "Invalid Token"),
        _ => panic!("a tampered token must be rejected"),
    }
}

#[test]
fn session_token_expired_and_wrong_secret_rejected() {
    let now = current_time();
    // Two hours in the past: well beyond the validator's leeway.
    let stale = generate_token("7", now - 2 * 86_400, SECRET).expect("signing must succeed");
    let header = format!("Bearer {}", stale);
    assert!(authorize_bearer(Some(&header), SECRET).is_err());

    let token = generate_token("7", now, SECRET).expect("signing must succeed");
    let header = format!("Bearer {}", token);
    assert!(authorize_bearer(Some(&header), b"some-other-secret").is_err());
}

#[test]
fn bearer_header_shape_is_enforced() {
    match authorize_bearer(None, SECRET) {
        Err(AppError::Unauthorized(m)) => assert_eq!(m, "Missing Authorization Header"),
        _ => panic!("a missing header must be unauthorized"),
    }
    let bare = "Token abc".to_string();
    match authorize_bearer(Some(&bare), SECRET) {
        Err(AppError::Unauthorized(m)) => assert_eq!(m, "Invalid Bearer Token"),
        _ => panic!("a non-bearer header must be unauthorized"),
    }
}

#[test]
fn one_time_token_expiry_boundary_is_strict() {
    let stored = "token-one".to_string();
    // expires_at == now: rejected.
    assert!(matches!(consume_check(&stored, NOW, &stored, NOW), TokenCheck::Expired));
    // One second of life left, consumed "500ms" later at the same second: accepted.
    assert!(matches!(consume_check(&stored, NOW + 1, &stored, NOW), TokenCheck::Accepted));
    // A different token: mismatch regardless of expiry.
    let other = "token-two".to_string();
    assert!(matches!(consume_check(&stored, NOW + 1, &other, NOW), TokenCheck::Mismatch));
}

#[test]
fn verification_token_expiration_boundary_in_store() {
    let mut store = IdentityStore::new();
    let req = RegisterRequest {
        email: "expire_test@example.com".to_string(),
        password: "Password123!".to_string(),
    };
    let (res, note) = register(&mut store, &req, NOW, SECRET);
    assert!(res.is_ok());
    let token = note.unwrap().token;

    // Age the stored pair so that it expires exactly "now".
    store.users[0].verification_token_expires_at = Some(NOW);
    let at_boundary = verify_email(&mut store, &VerifyTokenQuery { token: token.clone() }, NOW);
    match at_boundary {
        Err(AppError::BadRequest(m)) => assert_eq!(m, "Invalid or expired token"),
        _ => panic!("a token expiring now must be rejected"),
    }
    assert!(!store.users[0].is_verified);

    // With one second of life left it is consumable.
    store.users[0].verification_token_expires_at = Some(NOW + 1);
    assert!(verify_email(&mut store, &VerifyTokenQuery { token }, NOW).is_ok());
    assert!(store.users[0].is_verified);
}

#[test]
fn fresh_tokens_have_uuid_shape_and_differ() {
    let a = fresh_token();
    let b = fresh_token();
    assert_eq!(a.chars().count(), 36);
    assert_eq!(b.chars().count(), 36);
    assert_ne!(a, b);
}

#[test]
fn decimal_codec_round_trips() {
    assert_eq!(u64_to_string(0), "0");
    assert_eq!(u64_to_string(7), "7");
    assert_eq!(u64_to_string(1_234_567_890), "1234567890");
    assert_eq!(u64_to_string(u64::MAX), "18446744073709551615");
    for id in [0u64, 1, 9, 10, 99, 100, 65_535, u64::MAX] {
        assert_eq!(parse_u64(&u64_to_string(id)), Some(id));
    }
}

#[test]
fn decimal_parser_rejects_non_canonical_input() {
    assert_eq!(parse_u64(""), None);
    assert_eq!(parse_u64("12a"), None);
    assert_eq!(parse_u64("+5"), None);
    assert_eq!(parse_u64("-5"), None);
    assert_eq!(parse_u64(" 5"), None);
    // One past the largest representable identifier.
    assert_eq!(parse_u64("18446744073709551616"), None);
    // Leading zeros are digit runs, so they parse by value.
    assert_eq!(parse_u64("007"), Some(7));
}
