use beppo_fit_backend::clock::current_time;
use beppo_fit_backend::errors::AppError;
use beppo_fit_backend::lifecycle::{
    delete_account, forgot_password, forgot_password_response, google_upsert, login, register,
    reset_password, validate_register, verify_email, ForgotPasswordRequest, GoogleUser,
    LoginRequest, RegisterRequest, ResetPasswordRequest, VerifyTokenQuery,
};
use beppo_fit_backend::session::{authorize_bearer, Claims};
use beppo_fit_backend::store::IdentityStore;

const SECRET: &[u8] = b"test-secret";
const NOW: u64 = 1_700_000_000;

fn reg(email: &str, password: &str) -> RegisterRequest {
    RegisterRequest { email: email.to_string(), password: password.to_string() }
}

#[test]
fn scenario_register_verify_wrong_then_right_then_reuse() {
    let mut store = IdentityStore::new();
    let (res, note) = register(&mut store, &reg("a@x.com", "Password123!"), NOW, SECRET);
    let resp = res.expect("registration must succeed");
    assert_eq!(resp.user.email, "a@x.com");
    assert!(!resp.user.is_verified);
    assert!(!resp.token.is_empty());
    let token = note.expect("a verification notification is owed").token;

    let wrong = verify_email(
        &mut store,
        &VerifyTokenQuery { token: "not-the-token".to_string() },
        NOW + 10,
    );
    match wrong {
        Err(AppError::BadRequest(m)) => assert_eq!(m, "Invalid or expired token"),
        other => panic!("expected the generic rejection, got {:?}", fmt_outcome(&other)),
    }
    assert!(!store.users[0].is_verified);

    let right = verify_email(&mut store, &VerifyTokenQuery { token: token.clone() }, NOW + 10);
    assert!(right.is_ok());
    assert!(store.users[0].is_verified);
    assert!(store.users[0].verification_token.is_none());
    assert!(store.users[0].verification_token_expires_at.is_none());

    let again = verify_email(&mut store, &VerifyTokenQuery { token }, NOW + 20);
    match again {
        Err(AppError::BadRequest(m)) => assert_eq!(m, "Invalid or expired token"),
        other => panic!("expected the generic rejection, got {:?}", fmt_outcome(&other)),
    }
}

fn fmt_outcome(r: &Result<(), AppError>) -> String {
    match r {
        Ok(()) => "Ok".to_string(),
        Err(AppError::InternalServerError) => "InternalServerError".to_string(),
        Err(AppError::BadRequest(m)) => format!("BadRequest({})", m),
        Err(AppError::Unauthorized(m)) => format!("Unauthorized({})", m),
        Err(AppError::Conflict(m)) => format!("Conflict({})", m),
        Err(AppError::PasswordHashError) => "PasswordHashError".to_string(),
        Err(AppError::JwtError) => "JwtError".to_string(),
    }
}

#[test]
fn scenario_login_before_verification_succeeds() {
    let now = current_time();
    let mut store = IdentityStore::new();
    let (res, _) = register(&mut store, &reg("early@x.com", "Password123!"), now, SECRET);
    assert!(res.is_ok());
    assert!(!store.users[0].is_verified);

    let logged = login(
        &store,
        &LoginRequest { email: "early@x.com".to_string(), password: "Password123!".to_string() },
        now,
        SECRET,
    )
    .expect("login before verification is allowed");

    let header = format!("Bearer {}", logged.token);
    let claims: Claims =
        authorize_bearer(Some(&header), SECRET).expect("the issued token is usable at once");
    assert_eq!(claims.sub, "1");
}

#[test]
fn scenario_forgot_password_is_enumeration_safe() {
    let mut store = IdentityStore::new();
    let (res, _) = register(&mut store, &reg("real@x.com", "Password123!"), NOW, SECRET);
    assert!(res.is_ok());

    let known = forgot_password(
        &mut store,
        &ForgotPasswordRequest { email: "real@x.com".to_string() },
        NOW,
    );
    let unknown = forgot_password(
        &mut store,
        &ForgotPasswordRequest { email: "ghost@x.com".to_string() },
        NOW,
    );
    assert!(known.is_some());
    assert!(unknown.is_none());

    // Both callers see the identical generic success once the send worked.
    assert!(forgot_password_response(true, true).is_ok());
    assert!(forgot_password_response(false, true).is_ok());
    assert!(forgot_password_response(false, false).is_ok());
    // Only a failed send for an existing account is surfaced.
    match forgot_password_response(true, false) {
        Err(AppError::InternalServerError) => {}
        _ => panic!("a failed send for an existing email must surface"),
    }
}

#[test]
fn scenario_federated_upsert_merges_unverified_local_account() {
    let mut store = IdentityStore::new();
    let (res, _) = register(&mut store, &reg("mix@x.com", "Password123!"), NOW, SECRET);
    let local_id = res.expect("local registration succeeds").user.id;
    assert!(!store.users[0].is_verified);

    let guser = GoogleUser {
        id: "google-oid-1".to_string(),
        email: "mix@x.com".to_string(),
        verified_email: true,
    };
    let resp = google_upsert(&mut store, &guser, NOW + 5, SECRET).expect("upsert succeeds");
    assert_eq!(store.users.len(), 1);
    assert_eq!(resp.user.id, local_id);
    assert!(resp.user.is_verified);
    assert_eq!(resp.user.google_id.as_deref(), Some("google-oid-1"));
    // The local credential survives the merge.
    assert!(store.users[0].password_hash.is_some());
}

#[test]
fn federated_upsert_requires_provider_verified_email() {
    let mut store = IdentityStore::new();
    let guser = GoogleUser {
        id: "google-oid-2".to_string(),
        email: "nope@x.com".to_string(),
        verified_email: false,
    };
    match google_upsert(&mut store, &guser, NOW, SECRET) {
        Err(AppError::Unauthorized(m)) => assert_eq!(m, "Google email not verified"),
        _ => panic!("an unverified provider email must be rejected"),
    }
    assert_eq!(store.users.len(), 0);
}

#[test]
fn federated_upsert_creates_verified_credentialless_row() {
    let mut store = IdentityStore::new();
    let guser = GoogleUser {
        id: "google-oid-3".to_string(),
        email: "fed@x.com".to_string(),
        verified_email: true,
    };
    let resp = google_upsert(&mut store, &guser, NOW, SECRET).expect("upsert succeeds");
    assert!(resp.user.is_verified);
    assert!(resp.user.password_hash.is_none());

    // A federation-only account cannot log in locally.
    let attempt = login(
        &store,
        &LoginRequest { email: "fed@x.com".to_string(), password: "whatever123".to_string() },
        NOW,
        SECRET,
    );
    match attempt {
        Err(AppError::Unauthorized(m)) => assert_eq!(m, "Account uses Google Login"),
        _ => panic!("federation-only accounts must be told to use federated login"),
    }
}

#[test]
fn repeated_register_is_idempotent_before_verification() {
    let mut store = IdentityStore::new();
    let (first, note1) = register(&mut store, &reg("dup@x.com", "Password123!"), NOW, SECRET);
    assert!(first.is_ok());
    let tok1 = note1.unwrap().token;

    let (second, note2) = register(&mut store, &reg("dup@x.com", "Password123!"), NOW + 1, SECRET);
    assert!(second.is_ok(), "re-registration of an unverified email is a resend");
    assert_eq!(store.users.len(), 1, "no second row may appear");
    let tok2 = note2.unwrap().token;
    assert_ne!(tok1, tok2, "the resend must invalidate the old token with a fresh one");

    // The replaced token no longer works; the fresh one does.
    assert!(verify_email(&mut store, &VerifyTokenQuery { token: tok1 }, NOW + 2).is_err());
    assert!(verify_email(&mut store, &VerifyTokenQuery { token: tok2 }, NOW + 2).is_ok());

    let (third, note3) = register(&mut store, &reg("dup@x.com", "Password123!"), NOW + 3, SECRET);
    match third {
        Err(AppError::Conflict(m)) => {
            assert_eq!(m, "A user with this email address already exists")
        }
        _ => panic!("a verified email must register as a conflict"),
    }
    assert!(note3.is_none());
    assert_eq!(store.users.len(), 1);
}

#[test]
fn register_rejects_invalid_email_and_short_password() {
    let mut store = IdentityStore::new();
    let (bad_email, note) = register(&mut store, &reg("not-an-email", "Password123!"), NOW, SECRET);
    match bad_email {
        Err(AppError::BadRequest(m)) => assert_eq!(m, "Invalid email format"),
        _ => panic!("a malformed email must be rejected"),
    }
    assert!(note.is_none());

    let (short, _) = register(&mut store, &reg("ok@x.com", "short"), NOW, SECRET);
    match short {
        Err(AppError::BadRequest(m)) => assert_eq!(m, "Password must be at least 8 characters"),
        _ => panic!("a short password must be rejected"),
    }
    assert_eq!(store.users.len(), 0);

    assert!(validate_register(&reg("ok@x.com", "12345678")).is_ok());
}

#[test]
fn login_error_cases() {
    let mut store = IdentityStore::new();
    let (res, _) = register(&mut store, &reg("who@x.com", "Password123!"), NOW, SECRET);
    assert!(res.is_ok());

    match login(
        &store,
        &LoginRequest { email: "nobody@x.com".to_string(), password: "Password123!".to_string() },
        NOW,
        SECRET,
    ) {
        Err(AppError::Unauthorized(m)) => assert_eq!(m, "Unknown e-mail"),
        _ => panic!("unknown email must be unauthorized"),
    }

    match login(
        &store,
        &LoginRequest { email: "who@x.com".to_string(), password: "Password123?".to_string() },
        NOW,
        SECRET,
    ) {
        Err(AppError::Unauthorized(m)) => assert_eq!(m, "Wrong password"),
        _ => panic!("a wrong password must be unauthorized"),
    }
}

#[test]
fn password_reset_round_trip_and_single_use() {
    let mut store = IdentityStore::new();
    let (res, _) = register(&mut store, &reg("resetme@x.com", "OldPassword1!"), NOW, SECRET);
    assert!(res.is_ok());

    let note = forgot_password(
        &mut store,
        &ForgotPasswordRequest { email: "resetme@x.com".to_string() },
        NOW,
    )
    .expect("an existing email gets a reset notification");
    let token = note.token;

    let done = reset_password(
        &mut store,
        &ResetPasswordRequest {
            token: token.clone(),
            new_password: "NewPassword1!".to_string(),
        },
        NOW + 10,
    );
    assert!(done.is_ok());

    // Old password out, new password in.
    assert!(login(
        &store,
        &LoginRequest {
            email: "resetme@x.com".to_string(),
            password: "OldPassword1!".to_string()
        },
        NOW + 11,
        SECRET,
    )
    .is_err());
    assert!(login(
        &store,
        &LoginRequest {
            email: "resetme@x.com".to_string(),
            password: "NewPassword1!".to_string()
        },
        NOW + 11,
        SECRET,
    )
    .is_ok());

    // The token was consumed with the reset: a second use is rejected.
    let reused = reset_password(
        &mut store,
        &ResetPasswordRequest { token, new_password: "Sneaky123!".to_string() },
        NOW + 12,
    );
    match reused {
        Err(AppError::BadRequest(m)) => assert_eq!(m, "Invalid or expired token"),
        _ => panic!("a consumed reset token must be rejected"),
    }
}

#[test]
fn delete_account_removes_the_row() {
    let mut store = IdentityStore::new();
    let (res, _) = register(&mut store, &reg("gone@x.com", "Password123!"), NOW, SECRET);
    let id = res.unwrap().user.id;

    match delete_account(&mut store, &Claims { sub: "teapot".to_string(), exp: 0 }) {
        Err(AppError::Unauthorized(m)) => assert_eq!(m, "Invalid User ID in token"),
        _ => panic!("a malformed subject must be unauthorized"),
    }
    assert_eq!(store.users.len(), 1);

    assert!(delete_account(&mut store, &Claims { sub: id.to_string(), exp: 0 }).is_ok());
    assert_eq!(store.users.len(), 0);

    // Deleting an absent row still reports success, as the store does.
    assert!(delete_account(&mut store, &Claims { sub: id.to_string(), exp: 0 }).is_ok());
}
