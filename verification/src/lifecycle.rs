//! The account lifecycle: registration, verification, login, password
//! recovery, deletion and federated upsert, as verified transitions over the
//! identity store.
//!
//! Every operation takes the clock as a plain argument and returns typed
//! results; notification sending is handed back to the caller as data, so a
//! send failure can never disturb a committed transition.
use vstd::prelude::*;
use vstd::string::StrSliceExecFns;
use crate::digits::{dec_rep, parses_as_u64, seq_val, u64_to_string, parse_u64};
use crate::errors::{AppError, invalid_token_error, is_invalid_token_error};
use crate::password::{hash_password, password_verifies, verify_password};
use crate::session::{generate_token, jwt_claims_of, Claims, SESSION_WINDOW_SECS};
use crate::store::{
    clone_opt_string, consume_verification_store, reset_matches, set_password_store,
    set_reset_store, spec_email_idx, spec_has_email, spec_has_id, spec_id_idx, IdentityStore,
    User, verification_matches,
};
use crate::tokens::{fresh_token, RESET_TOKEN_WINDOW_SECS, VERIFICATION_TOKEN_WINDOW_SECS};

verus! {

/// A registration request: an email to own and a password to set.
pub struct RegisterRequest {
    pub email: String,
    pub password: String,
}

/// A login request.
pub struct LoginRequest {
    pub email: String,
    pub password: String,
}

/// The query carrying an email-verification token.
pub struct VerifyTokenQuery {
    pub token: String,
}

/// A password-recovery request.
pub struct ForgotPasswordRequest {
    pub email: String,
}

/// A password-reset confirmation: the one-time token and the new password.
pub struct ResetPasswordRequest {
    pub token: String,
    pub new_password: String,
}

/// The provider callback query: authorization code and anti-forgery state.
pub struct AuthRequest {
    pub code: String,
    pub state: String,
}

/// What the federated provider attests about the signed-in user.
pub struct GoogleUser {
    pub id: String,
    pub email: String,
    pub verified_email: bool,
}

/// A successful authentication: the bearer session token and the user row.
pub struct AuthResponse {
    pub token: String,
    pub user: User,
}

/// Which notification to send.
pub enum NotificationKind {
    Verification,
    PasswordReset,
}

/// An outbound notification, handed back to the transport layer to send
/// best-effort: the one-time token for the recipient's email.
pub struct Notification {
    pub kind: NotificationKind,
    pub to: String,
    pub token: String,
}

/// Whether a string is an acceptable email address. Decided by the email
/// validator from the characters alone; never written out here.
pub uninterp spec fn email_ok(s: Seq<char>) -> bool;

/// Relies on validator::ValidateEmail::validate_email for &str (the HTML5
/// email shape); the verdict depends on the characters alone.
#[verifier::external_body]
fn check_email(email: &str) -> (r: bool)
    ensures
        r == email_ok(email@),
{
    validator::ValidateEmail::validate_email(&email)
}

/// A registration is acceptable iff the email has the right shape and the
/// password has at least eight characters.
pub open spec fn register_valid(email: Seq<char>, password: Seq<char>) -> bool {
    email_ok(email) && password.len() >= 8
}

/// Validates a registration request, rejecting exactly the requests outside
/// [`register_valid`], each with its human-readable reason.
pub fn validate_register(req: &RegisterRequest) -> (r: Result<(), AppError>)
    ensures
        r is Ok <==> register_valid(req.email@, req.password@),
        r matches Err(e) ==> (e matches AppError::BadRequest(m) && (m@ == "Invalid email format"@
            || m@ == "Password must be at least 8 characters"@)),
{
    if !check_email(req.email.as_str()) {
        return Err(AppError::BadRequest("Invalid email format".to_owned()));
    }
    if req.password.as_str().unicode_len() < 8 {
        return Err(AppError::BadRequest("Password must be at least 8 characters".to_owned()));
    }
    Ok(())
}

/// A row after a verification token is re-issued for it (resend), replacing
/// any outstanding one.
pub open spec fn resend_verification_row(u: User, token: String, expires_at: u64, now: u64) -> User {
    User {
        verification_token: Some(token),
        verification_token_expires_at: Some(expires_at),
        updated_at: now,
        ..u
    }
}

/// The row created by a local registration: unverified, with a credential
/// and an outstanding verification pair.
pub open spec fn register_created_row(
    id: u64,
    email: String,
    h: String,
    token: String,
    expires_at: u64,
    now: u64,
) -> User {
    User {
        id: id,
        email: email,
        password_hash: Some(h),
        google_id: None,
        is_verified: false,
        verification_token: Some(token),
        verification_token_expires_at: Some(expires_at),
        reset_password_token: None,
        reset_password_expires_at: None,
        created_at: now,
        updated_at: now,
    }
}

/// What a successful resend registration guarantees: only the existing row
/// changed (no second row for the email), it got the notified fresh token
/// pair, and the session token names that row's identifier.
pub open spec fn register_resend_post(
    pre: Seq<User>,
    post: Seq<User>,
    email: Seq<char>,
    resp: AuthResponse,
    note: Notification,
    now: u64,
) -> bool {
    let i = spec_email_idx(pre, email);
    &&& post == pre.update(
        i,
        resend_verification_row(
            pre[i],
            note.token,
            (now + VERIFICATION_TOKEN_WINDOW_SECS) as u64,
            now,
        ),
    )
    &&& resp.user == post[i]
    &&& note.kind is Verification
    &&& note.to@ == email
    &&& jwt_claims_of(resp.token@) == (dec_rep(pre[i].id as nat), (now
        + SESSION_WINDOW_SECS) as nat)
}

/// What a successful first registration guarantees: exactly one row was
/// appended, carrying the next identifier, a hash that verifies the given
/// password, and the notified verification pair; the session token names the
/// new identifier.
pub open spec fn register_create_post(
    pre: IdentityStore,
    post: IdentityStore,
    req: RegisterRequest,
    resp: AuthResponse,
    note: Notification,
    now: u64,
) -> bool {
    &&& exists|h: String|
        password_verifies(req.password@, h@) && post.users@ == pre.users@.push(
            #[trigger] register_created_row(
                pre.next_id,
                req.email,
                h,
                note.token,
                (now + VERIFICATION_TOKEN_WINDOW_SECS) as u64,
                now,
            ),
        )
    &&& post.next_id == pre.next_id + 1
    &&& resp.user == post.users@.last()
    &&& note.kind is Verification
    &&& note.to@ == req.email@
    &&& jwt_claims_of(resp.token@) == (dec_rep(pre.next_id as nat), (now
        + SESSION_WINDOW_SECS) as nat)
}

/// Registration. For a fresh email: create the identity unverified, with an
/// outstanding verification token to notify. For an existing verified email:
/// conflict. For an existing unverified email: re-issue the verification
/// token instead of erroring, so registration is idempotent before
/// verification and never creates a second row. A successful registration of
/// either kind returns a session token at once.
pub fn register(
    store: &mut IdentityStore,
    req: &RegisterRequest,
    now: u64,
    secret: &[u8],
) -> (r: (Result<AuthResponse, AppError>, Option<Notification>))
    requires
        old(store).wf(),
        now + VERIFICATION_TOKEN_WINDOW_SECS <= u64::MAX,
        old(store).next_id < u64::MAX,
    ensures
        final(store).wf(),
        !register_valid(req.email@, req.password@) ==> (r.0 matches Err(e)
            && e matches AppError::BadRequest(_) && *final(store) == *old(store) && r.1 is None),
        (register_valid(req.email@, req.password@) && spec_has_email(old(store).users@, req.email@)
            && old(store).users@[spec_email_idx(old(store).users@, req.email@)].is_verified) ==> (
        r.0 matches Err(e) && e matches AppError::Conflict(m) && m@
            == "A user with this email address already exists"@ && *final(store) == *old(store)
            && r.1 is None),
        (register_valid(req.email@, req.password@) && spec_has_email(old(store).users@, req.email@)
            && !old(store).users@[spec_email_idx(old(store).users@, req.email@)].is_verified) ==> (
        (r.0 matches Ok(resp) && r.1 matches Some(note) && register_resend_post(
            old(store).users@,
            final(store).users@,
            req.email@,
            resp,
            note,
            now,
        ) && final(store).next_id == old(store).next_id) || (r.0 matches Err(e) && e is JwtError
            && *final(store) == *old(store) && r.1 is None)),
        (register_valid(req.email@, req.password@) && !spec_has_email(
            old(store).users@,
            req.email@,
        )) ==> ((r.0 matches Ok(resp) && r.1 matches Some(note) && register_create_post(
            *old(store),
            *final(store),
            *req,
            resp,
            note,
            now,
        )) || (r.0 matches Err(e) && (e is PasswordHashError || e is JwtError) && *final(store)
            == *old(store) && r.1 is None)),
{
    if let Err(e) = validate_register(req) {
        return (Err(e), None);
    }
    let found = store.find_by_email(&req.email);
    match found {
        Some(i) => {
            proof {
                let idx = spec_email_idx(old(store).users@, req.email@);
                assert((i as int) < old(store).users@.len() && old(store).users@[
                    i as int
                ].email@ == req.email@);
                assert(spec_has_email(old(store).users@, req.email@));
                assert(0 <= idx < old(store).users@.len() && old(store).users@[idx].email@
                    == req.email@);
                old(store).lemma_email_unique(i as int, idx);
            }
            let existing = store.get_user(i);
            if existing.is_verified {
                return (
                    Err(
                        AppError::Conflict(
                            "A user with this email address already exists".to_owned(),
                        ),
                    ),
                    None,
                );
            }
            let sub = u64_to_string(existing.id);
            let session = match generate_token(sub.as_str(), now, secret) {
                Ok(t) => t,
                Err(e) => {
                    return (Err(e), None);
                },
            };
            let new_token = fresh_token();
            let expires_at = now + VERIFICATION_TOKEN_WINDOW_SECS;
            let row = &mut store.users[i];
            row.verification_token = Some(new_token.clone());
            row.verification_token_expires_at = Some(expires_at);
            row.updated_at = now;
            proof {
                assert forall|a: int| 0 <= a < store.users@.len() implies (
                #[trigger] store.users@[a]).wf() && store.users@[a].id < store.next_id by {
                    assert(old(store).users@[a].wf());
                }
                assert forall|a: int, b: int|
                    0 <= a < store.users@.len() && 0 <= b < store.users@.len() && a != b implies (
                #[trigger] store.users@[a]).email@ != (#[trigger] store.users@[b]).email@
                    && store.users@[a].id != store.users@[b].id by {
                    assert(old(store).users@[a].email@ != old(store).users@[b].email@);
                }
            }
            let user_copy = store.get_user(i);
            let note = Notification {
                kind: NotificationKind::Verification,
                to: req.email.clone(),
                token: new_token,
            };
            proof {
                assert(store.users@ =~= old(store).users@.update(
                    i as int,
                    resend_verification_row(
                        old(store).users@[i as int],
                        note.token,
                        (now + VERIFICATION_TOKEN_WINDOW_SECS) as u64,
                        now,
                    ),
                ));
            }
            (Ok(AuthResponse { token: session, user: user_copy }), Some(note))
        },
        None => {
            let h = match hash_password(req.password.as_str()) {
                Ok(h) => h,
                Err(_) => {
                    return (Err(AppError::PasswordHashError), None);
                },
            };
            let id = store.next_id;
            let sub = u64_to_string(id);
            let session = match generate_token(sub.as_str(), now, secret) {
                Ok(t) => t,
                Err(e) => {
                    return (Err(e), None);
                },
            };
            let vtok = fresh_token();
            let expires_at = now + VERIFICATION_TOKEN_WINDOW_SECS;
            let ghost hval: String = h;
            let row = User {
                id: id,
                email: req.email.clone(),
                password_hash: Some(h),
                google_id: None,
                is_verified: false,
                verification_token: Some(vtok.clone()),
                verification_token_expires_at: Some(expires_at),
                reset_password_token: None,
                reset_password_expires_at: None,
                created_at: now,
                updated_at: now,
            };
            let user_copy = row.duplicate();
            store.users.push(row);
            store.next_id = id + 1;
            let note = Notification {
                kind: NotificationKind::Verification,
                to: req.email.clone(),
                token: vtok,
            };
            proof {
                assert(store.users@ == old(store).users@.push(
                    register_created_row(
                        old(store).next_id,
                        req.email,
                        hval,
                        note.token,
                        (now + VERIFICATION_TOKEN_WINDOW_SECS) as u64,
                        now,
                    ),
                ));
                assert forall|a: int| 0 <= a < store.users@.len() implies (
                #[trigger] store.users@[a]).wf() && store.users@[a].id < store.next_id by {
                    if a < old(store).users@.len() {
                        assert(old(store).users@[a].wf());
                    }
                }
                assert forall|a: int, b: int|
                    0 <= a < store.users@.len() && 0 <= b < store.users@.len() && a != b implies (
                #[trigger] store.users@[a]).email@ != (#[trigger] store.users@[b]).email@
                    && store.users@[a].id != store.users@[b].id by {
                    let n = old(store).users@.len() as int;
                    if a < n && b < n {
                        assert(old(store).users@[a].email@ != old(store).users@[b].email@);
                    } else if a < n {
                        assert(!(old(store).users@[a].email@ == req.email@));
                    } else if b < n {
                        assert(!(old(store).users@[b].email@ == req.email@));
                    }
                }
            }
            (Ok(AuthResponse { token: session, user: user_copy }), Some(note))
        },
    }
}

/// Login: unknown email, a federation-only account, and a wrong password are
/// each rejected as unauthorized with their own message (an accepted policy
/// gap: the messages reveal which check failed). A correct password earns a
/// session token whether or not the email is verified — verification gates
/// email-dependent features, not login.
pub fn login(store: &IdentityStore, req: &LoginRequest, now: u64, secret: &[u8]) -> (r: Result<
    AuthResponse,
    AppError,
>)
    requires
        store.wf(),
        now + SESSION_WINDOW_SECS <= u64::MAX,
    ensures
        !spec_has_email(store.users@, req.email@) ==> (r matches Err(e)
            && e matches AppError::Unauthorized(m) && m@ == "Unknown e-mail"@),
        spec_has_email(store.users@, req.email@) ==> ({
            let u = store.users@[spec_email_idx(store.users@, req.email@)];
            match u.password_hash {
                None => r matches Err(e) && e matches AppError::Unauthorized(m) && m@
                    == "Account uses Google Login"@,
                Some(h) => if !password_verifies(req.password@, h@) {
                    r matches Err(e) && e matches AppError::Unauthorized(m) && m@
                        == "Wrong password"@
                } else {
                    (r matches Ok(resp) && resp.user == u && jwt_claims_of(resp.token@) == (
                    dec_rep(u.id as nat),
                    (now + SESSION_WINDOW_SECS) as nat,
                    )) || (r matches Err(e) && e is JwtError)
                },
            }
        }),
{
    let found = store.find_by_email(&req.email);
    let i = match found {
        Some(i) => i,
        None => {
            return Err(AppError::Unauthorized("Unknown e-mail".to_owned()));
        },
    };
    proof {
        let idx = spec_email_idx(store.users@, req.email@);
        assert(spec_has_email(store.users@, req.email@));
        assert(0 <= idx < store.users@.len() && store.users@[idx].email@ == req.email@);
        store.lemma_email_unique(i as int, idx);
    }
    let u = store.get_user(i);
    let stored_hash = clone_opt_string(&u.password_hash);
    let h = match stored_hash {
        Some(h) => h,
        None => {
            return Err(AppError::Unauthorized("Account uses Google Login".to_owned()));
        },
    };
    if !verify_password(req.password.as_str(), h.as_str()) {
        return Err(AppError::Unauthorized("Wrong password".to_owned()));
    }
    let sub = u64_to_string(u.id);
    match generate_token(sub.as_str(), now, secret) {
        Ok(t) => Ok(AuthResponse { token: t, user: u }),
        Err(e) => Err(e),
    }
}

/// Email verification: one atomic conditional consumption of the token. Any
/// failure — unknown, expired or mismatched token — is the one generic
/// rejection, indistinguishable to the caller.
pub fn verify_email(store: &mut IdentityStore, query: &VerifyTokenQuery, now: u64) -> (r: Result<
    (),
    AppError,
>)
    requires
        old(store).wf(),
    ensures
        final(store).wf(),
        final(store).next_id == old(store).next_id,
        final(store).users@ == consume_verification_store(old(store).users@, query.token@, now),
        r is Ok <==> exists|i: int|
            0 <= i < old(store).users@.len() && verification_matches(
                #[trigger] old(store).users@[i],
                query.token@,
                now,
            ),
        r matches Err(e) ==> is_invalid_token_error(e),
{
    let affected = store.consume_verification(&query.token, now);
    if affected {
        Ok(())
    } else {
        Err(invalid_token_error())
    }
}

/// Password-recovery request: if the email exists, attach a fresh one-hour
/// reset pair (overwriting any prior one) and hand back the notification to
/// send; if not, change nothing. The caller's response must not reveal which
/// happened — see [`forgot_password_response`].
pub fn forgot_password(store: &mut IdentityStore, req: &ForgotPasswordRequest, now: u64) -> (r:
    Option<Notification>)
    requires
        old(store).wf(),
        now + RESET_TOKEN_WINDOW_SECS <= u64::MAX,
    ensures
        final(store).wf(),
        final(store).next_id == old(store).next_id,
        r matches Some(n) ==> (n.kind is PasswordReset && n.to@ == req.email@
            && final(store).users@ == set_reset_store(
            old(store).users@,
            req.email@,
            n.token,
            (now + RESET_TOKEN_WINDOW_SECS) as u64,
            now,
        )),
        r is Some <==> spec_has_email(old(store).users@, req.email@),
        r is None ==> final(store).users@ == old(store).users@,
{
    let token = fresh_token();
    let affected = store.set_reset_by_email(&req.email, &token, now + RESET_TOKEN_WINDOW_SECS, now);
    if affected {
        Some(
            Notification {
                kind: NotificationKind::PasswordReset,
                to: req.email.clone(),
                token: token,
            },
        )
    } else {
        proof {
            assert(final(store).users@ =~= old(store).users@);
        }
        None
    }
}

/// The anti-enumeration response rule for password recovery: the caller sees
/// the same generic success whether or not the email exists; only a failed
/// send for an email that does exist surfaces as an internal error.
pub fn forgot_password_response(existed: bool, send_ok: bool) -> (r: Result<(), AppError>)
    ensures
        r is Ok <==> (!existed || send_ok),
        r matches Err(e) ==> e is InternalServerError,
{
    if existed && !send_ok {
        Err(AppError::InternalServerError)
    } else {
        Ok(())
    }
}

/// Password-reset confirmation: requires a stored, unexpired, matching reset
/// token; on success the new password is hashed and lands atomically with
/// the clearing of the token pair. All token failures are the one generic
/// rejection.
pub fn reset_password(store: &mut IdentityStore, req: &ResetPasswordRequest, now: u64) -> (r:
    Result<(), AppError>)
    requires
        old(store).wf(),
    ensures
        final(store).wf(),
        final(store).next_id == old(store).next_id,
        !(exists|i: int|
            0 <= i < old(store).users@.len() && reset_matches(
                #[trigger] old(store).users@[i],
                req.token@,
                now,
            )) ==> (r matches Err(e) && is_invalid_token_error(e) && final(store).users@
            == old(store).users@),
        (exists|i: int|
            0 <= i < old(store).users@.len() && reset_matches(
                #[trigger] old(store).users@[i],
                req.token@,
                now,
            )) ==> ((r is Ok && exists|h: String|
            password_verifies(req.new_password@, h@) && final(store).users@
                == #[trigger] set_password_store(old(store).users@, req.token@, h, now)) || (
        r matches Err(e) && e is PasswordHashError && final(store).users@ == old(store).users@)),
{
    if !store.find_valid_reset(&req.token, now) {
        return Err(invalid_token_error());
    }
    match hash_password(req.new_password.as_str()) {
        Ok(h) => {
            store.set_password_by_reset(&req.token, &h, now);
            Ok(())
        },
        Err(_) => Err(AppError::PasswordHashError),
    }
}

/// Account deletion for an authenticated subject: the subject string must be
/// a well-formed identifier (else unauthorized); the row with that
/// identifier, if any, is removed outright — no soft delete, and deleting an
/// absent row still succeeds.
pub fn delete_account(store: &mut IdentityStore, claims: &Claims) -> (r: Result<(), AppError>)
    requires
        old(store).wf(),
    ensures
        final(store).wf(),
        final(store).next_id == old(store).next_id,
        !parses_as_u64(claims.sub@) ==> (r matches Err(e) && e matches AppError::Unauthorized(m)
            && m@ == "Invalid User ID in token"@ && final(store).users@ == old(store).users@),
        parses_as_u64(claims.sub@) ==> (r is Ok && ({
            let id = seq_val(claims.sub@) as u64;
            if spec_has_id(old(store).users@, id) {
                final(store).users@ == old(store).users@.remove(
                    spec_id_idx(old(store).users@, id),
                )
            } else {
                final(store).users@ == old(store).users@
            }
        })),
{
    let id = match parse_u64(claims.sub.as_str()) {
        Some(id) => id,
        None => {
            return Err(AppError::Unauthorized("Invalid User ID in token".to_owned()));
        },
    };
    let found = store.find_by_id(id);
    match found {
        Some(i) => {
            proof {
                let idx = spec_id_idx(old(store).users@, id);
                assert(spec_has_id(old(store).users@, id));
                assert(0 <= idx < old(store).users@.len() && old(store).users@[idx].id == id);
                if i as int != idx {
                    assert(old(store).users@[i as int].id != old(store).users@[idx].id);
                }
            }
            store.users.remove(i);
            proof {
                let pre = old(store).users@;
                let post = store.users@;
                assert(post =~= pre.subrange(0, i as int) + pre.subrange(
                    i as int + 1,
                    pre.len() as int,
                ));
                assert forall|a: int| 0 <= a < post.len() implies (#[trigger] post[a]).wf()
                    && post[a].id < store.next_id by {
                    let a0 = if a < i as int {
                        a
                    } else {
                        a + 1
                    };
                    assert(post[a] == pre[a0]);
                    assert(pre[a0].wf());
                }
                assert forall|a: int, b: int|
                    0 <= a < post.len() && 0 <= b < post.len() && a != b implies (
                #[trigger] post[a]).email@ != (#[trigger] post[b]).email@ && post[a].id
                    != post[b].id by {
                    let a0 = if a < i as int {
                        a
                    } else {
                        a + 1
                    };
                    let b0 = if b < i as int {
                        b
                    } else {
                        b + 1
                    };
                    assert(post[a] == pre[a0]);
                    assert(post[b] == pre[b0]);
                    assert(pre[a0].email@ != pre[b0].email@);
                }
            }
            Ok(())
        },
        None => Ok(()),
    }
}

/// A row after a federated sign-in merges into it: the provider identifier
/// is set or overwritten and the email counts as verified (the provider
/// attested it); the identifier is preserved.
pub open spec fn google_merge_row(u: User, gid: String, now: u64) -> User {
    User { google_id: Some(gid), is_verified: true, updated_at: now, ..u }
}

/// The row created by a first federated sign-in: verified at once, no local
/// credential.
pub open spec fn google_created_row(id: u64, email: String, gid: String, now: u64) -> User {
    User {
        id: id,
        email: email,
        password_hash: None,
        google_id: Some(gid),
        is_verified: true,
        verification_token: None,
        verification_token_expires_at: None,
        reset_password_token: None,
        reset_password_expires_at: None,
        created_at: now,
        updated_at: now,
    }
}

/// Federated upsert: the provider must attest the email (else unauthorized).
/// An existing row — even an unverified local one — keeps its identifier and
/// is merged: provider id set, email forced verified. A fresh email gets a
/// new verified, credential-less row. Either way a session token is issued
/// for the row's identifier.
pub fn google_upsert(store: &mut IdentityStore, guser: &GoogleUser, now: u64, secret: &[u8]) -> (r:
    Result<AuthResponse, AppError>)
    requires
        old(store).wf(),
        now + SESSION_WINDOW_SECS <= u64::MAX,
        old(store).next_id < u64::MAX,
    ensures
        final(store).wf(),
        !guser.verified_email ==> (r matches Err(e) && e matches AppError::Unauthorized(m) && m@
            == "Google email not verified"@ && *final(store) == *old(store)),
        (guser.verified_email && spec_has_email(old(store).users@, guser.email@)) ==> ({
            let i = spec_email_idx(old(store).users@, guser.email@);
            (r matches Ok(resp) ==> (final(store).users@ == old(store).users@.update(
                i,
                google_merge_row(old(store).users@[i], guser.id, now),
            ) && final(store).next_id == old(store).next_id && resp.user == final(store).users@[i]
                && resp.user.id == old(store).users@[i].id && resp.user.is_verified
                && jwt_claims_of(resp.token@) == (
            dec_rep(old(store).users@[i].id as nat),
            (now + SESSION_WINDOW_SECS) as nat,
            ))) && (r matches Err(e) ==> (e is JwtError && *final(store) == *old(store)))
        }),
        (guser.verified_email && !spec_has_email(old(store).users@, guser.email@)) ==> ((
        r matches Ok(resp) && final(store).users@ == old(store).users@.push(
            google_created_row(old(store).next_id, guser.email, guser.id, now),
        ) && final(store).next_id == old(store).next_id + 1 && resp.user
            == final(store).users@.last() && jwt_claims_of(resp.token@) == (
        dec_rep(old(store).next_id as nat),
        (now + SESSION_WINDOW_SECS) as nat,
        )) || (r matches Err(e) && e is JwtError && *final(store) == *old(store))),
{
    if !guser.verified_email {
        return Err(AppError::Unauthorized("Google email not verified".to_owned()));
    }
    let found = store.find_by_email(&guser.email);
    match found {
        Some(i) => {
            proof {
                let idx = spec_email_idx(old(store).users@, guser.email@);
                assert(spec_has_email(old(store).users@, guser.email@));
                assert(0 <= idx < old(store).users@.len() && old(store).users@[idx].email@
                    == guser.email@);
                old(store).lemma_email_unique(i as int, idx);
            }
            let existing_id = {
                let u = &store.users[i];
                u.id
            };
            let sub = u64_to_string(existing_id);
            let session = match generate_token(sub.as_str(), now, secret) {
                Ok(t) => t,
                Err(e) => {
                    return Err(e);
                },
            };
            let row = &mut store.users[i];
            row.google_id = Some(guser.id.clone());
            row.is_verified = true;
            row.updated_at = now;
            proof {
                assert(store.users@ =~= old(store).users@.update(
                    i as int,
                    google_merge_row(old(store).users@[i as int], guser.id, now),
                ));
                assert forall|a: int| 0 <= a < store.users@.len() implies (
                #[trigger] store.users@[a]).wf() && store.users@[a].id < store.next_id by {
                    assert(old(store).users@[a].wf());
                }
                assert forall|a: int, b: int|
                    0 <= a < store.users@.len() && 0 <= b < store.users@.len() && a != b implies (
                #[trigger] store.users@[a]).email@ != (#[trigger] store.users@[b]).email@
                    && store.users@[a].id != store.users@[b].id by {
                    assert(old(store).users@[a].email@ != old(store).users@[b].email@);
                }
            }
            let user_copy = store.get_user(i);
            Ok(AuthResponse { token: session, user: user_copy })
        },
        None => {
            let id = store.next_id;
            let sub = u64_to_string(id);
            let session = match generate_token(sub.as_str(), now, secret) {
                Ok(t) => t,
                Err(e) => {
                    return Err(e);
                },
            };
            let row = User {
                id: id,
                email: guser.email.clone(),
                password_hash: None,
                google_id: Some(guser.id.clone()),
                is_verified: true,
                verification_token: None,
                verification_token_expires_at: None,
                reset_password_token: None,
                reset_password_expires_at: None,
                created_at: now,
                updated_at: now,
            };
            let user_copy = row.duplicate();
            store.users.push(row);
            store.next_id = id + 1;
            proof {
                assert(store.users@ == old(store).users@.push(
                    google_created_row(old(store).next_id, guser.email, guser.id, now),
                ));
                assert forall|a: int| 0 <= a < store.users@.len() implies (
                #[trigger] store.users@[a]).wf() && store.users@[a].id < store.next_id by {
                    if a < old(store).users@.len() {
                        assert(old(store).users@[a].wf());
                    }
                }
                assert forall|a: int, b: int|
                    0 <= a < store.users@.len() && 0 <= b < store.users@.len() && a != b implies (
                #[trigger] store.users@[a]).email@ != (#[trigger] store.users@[b]).email@
                    && store.users@[a].id != store.users@[b].id by {
                    let n = old(store).users@.len() as int;
                    if a < n && b < n {
                        assert(old(store).users@[a].email@ != old(store).users@[b].email@);
                    } else if a < n {
                        assert(!(old(store).users@[a].email@ == guser.email@));
                    } else if b < n {
                        assert(!(old(store).users@[b].email@ == guser.email@));
                    }
                }
            }
            Ok(AuthResponse { token: session, user: user_copy })
        },
    }
}

} // verus!
