//! One-time token policy: generation and the consumption rule.
//!
//! Verification and password-reset tokens are high-entropy random strings
//! paired with an expiry. A token is consumable iff the supplied text equals
//! the stored text and the clock is strictly before the expiry.
use vstd::prelude::*;

verus! {

/// How long a fresh email-verification token lives, in seconds.
pub const VERIFICATION_TOKEN_WINDOW_SECS: u64 = 86400;

/// How long a fresh password-reset token lives, in seconds.
pub const RESET_TOKEN_WINDOW_SECS: u64 = 3600;

/// Relies on uuid::Uuid::new_v4 and Uuid's Display: a fresh random
/// version-4 UUID in hyphenated form, 36 characters. The value is random, so
/// nothing relates two calls; unguessability is not modelled.
#[verifier::external_body]
pub fn fresh_token() -> (r: String)
    ensures
        r@.len() == 36,
{
    uuid::Uuid::new_v4().to_string()
}

/// The outcome of a consumption attempt.
pub enum TokenCheck {
    Accepted,
    Expired,
    Mismatch,
}

/// The consumption rule: a supplied token is accepted iff it equals the
/// stored token and the clock is strictly before the stored expiry.
pub open spec fn one_time_token_accepts(
    stored: Seq<char>,
    expires_at: u64,
    supplied: Seq<char>,
    now: u64,
) -> bool {
    supplied == stored && now < expires_at
}

/// Decides the consumption rule for a stored token pair.
pub fn consume_check(stored: &String, expires_at: u64, supplied: &String, now: u64) -> (r:
    TokenCheck)
    ensures
        r is Accepted <==> one_time_token_accepts(stored@, expires_at, supplied@, now),
        r is Mismatch <==> supplied@ != stored@,
        r is Expired <==> (supplied@ == stored@ && now >= expires_at),
{
    if !supplied.eq(stored) {
        TokenCheck::Mismatch
    } else if now < expires_at {
        TokenCheck::Accepted
    } else {
        TokenCheck::Expired
    }
}

/// Law (strict expiry boundary): a token whose expiry equals the clock is
/// rejected, while one with a second of life left is accepted.
pub proof fn lemma_expiry_boundary(token: Seq<char>, now: u64)
    ensures
        !one_time_token_accepts(token, now, token, now),
        now < u64::MAX ==> one_time_token_accepts(token, (now + 1) as u64, token, now),
{
}

} // verus!
