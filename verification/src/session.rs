//! Session-token issuance and validation.
//!
//! A session token is a signed, time-bound bearer credential carrying a
//! subject identifier and an expiry. The pair embedded in a token is named
//! by [`jwt_claims_of`]; issuance states which pair it embeds, validation
//! states that whatever it accepts is that embedded pair.
use vstd::prelude::*;
use vstd::string::{StrSliceExecFns, StringExecFns};
use crate::errors::AppError;

verus! {

/// The claims carried by a session token: a subject identifier and an
/// expiry in seconds since the Unix epoch.
pub struct Claims {
    pub sub: String,
    pub exp: usize,
}

/// The (subject, expiry) pair embedded in a token's payload. It is a
/// function of the token text alone; the signing secret only decides whether
/// validation accepts the token.
pub uninterp spec fn jwt_claims_of(token: Seq<char>) -> (Seq<char>, nat);

#[verifier::external_type_specification]
#[verifier::external_body]
pub struct ExJwtError(jsonwebtoken::errors::Error);

/// Relies on jsonwebtoken::encode (HS256, default header): the produced
/// token embeds exactly the given subject and expiry claims.
#[verifier::external_body]
fn jwt_encode(sub: &str, exp: u64, secret: &[u8]) -> (r: Result<
    String,
    jsonwebtoken::errors::Error,
>)
    ensures
        r matches Ok(t) ==> jwt_claims_of(t@) == (sub@, exp as nat),
{
    let mut claims = serde_json::Map::new();
    claims.insert("sub".to_string(), serde_json::Value::String(sub.to_string()));
    claims.insert("exp".to_string(), serde_json::Value::from(exp));
    jsonwebtoken::encode(
        &jsonwebtoken::Header::default(),
        &serde_json::Value::Object(claims),
        &jsonwebtoken::EncodingKey::from_secret(secret),
    )
}

/// Relies on jsonwebtoken::decode (HS256, default validation): it checks the
/// signature against the secret and the expiry against the system clock, and
/// on success returns the claims embedded in the token. Whether it accepts
/// depends on the clock, so only the accepted case is described.
#[verifier::external_body]
fn jwt_decode(token: &str, secret: &[u8]) -> (r: Option<Claims>)
    ensures
        r matches Some(c) ==> (c.sub@, c.exp as nat) == jwt_claims_of(token@),
{
    let key = jsonwebtoken::DecodingKey::from_secret(secret);
    let validation = jsonwebtoken::Validation::default();
    let data = jsonwebtoken::decode::<serde_json::Value>(token, &key, &validation).ok()?;
    let sub = data.claims.get("sub").and_then(|v| v.as_str())?.to_string();
    let exp = data.claims.get("exp").and_then(|v| v.as_u64())?;
    let exp = usize::try_from(exp).ok()?;
    Some(Claims { sub, exp })
}

/// How long an issued session token lives, in seconds.
pub const SESSION_WINDOW_SECS: u64 = 86400;

/// Issues a session token for a subject: the token embeds the subject and an
/// expiry one day past the given clock; signing failures surface as a typed
/// error.
pub fn generate_token(user_id: &str, now: u64, secret: &[u8]) -> (r: Result<String, AppError>)
    requires
        now + SESSION_WINDOW_SECS <= u64::MAX,
    ensures
        r matches Ok(t) ==> jwt_claims_of(t@) == (user_id@, (now + SESSION_WINDOW_SECS) as nat),
        r matches Err(e) ==> e is JwtError,
{
    match jwt_encode(user_id, now + SESSION_WINDOW_SECS, secret) {
        Ok(t) => Ok(t),
        Err(_) => Err(AppError::JwtError),
    }
}

/// An authorization header value carries a bearer token: the literal prefix
/// `Bearer ` followed by the token text.
pub open spec fn has_bearer_prefix(s: Seq<char>) -> bool {
    &&& s.len() >= 7
    &&& s[0] == 'B'
    &&& s[1] == 'e'
    &&& s[2] == 'a'
    &&& s[3] == 'r'
    &&& s[4] == 'e'
    &&& s[5] == 'r'
    &&& s[6] == ' '
}

/// The token text of a bearer header value.
pub open spec fn bearer_token_of(s: Seq<char>) -> Seq<char>
    recommends
        has_bearer_prefix(s),
{
    s.subrange(7, s.len() as int)
}

/// Resolves the subject of a request from its authorization header: the
/// header must be present, carry the bearer prefix, and hold a token that
/// validation accepts; whatever is accepted is the pair embedded in that
/// token. Absence and malformedness are distinguished exactly as stated;
/// cryptographic rejection and expiry collapse to one generic failure.
pub fn authorize_bearer(auth_header: Option<&String>, secret: &[u8]) -> (r: Result<
    Claims,
    AppError,
>)
    ensures
        auth_header is None ==> (r matches Err(e) && e matches AppError::Unauthorized(m) && m@
            == "Missing Authorization Header"@),
        (auth_header matches Some(h) && !has_bearer_prefix(h@)) ==> (r matches Err(e)
            && e matches AppError::Unauthorized(m) && m@ == "Invalid Bearer Token"@),
        (auth_header matches Some(h) && has_bearer_prefix(h@)) ==> (r matches Ok(c) || (
        r matches Err(e) && e matches AppError::Unauthorized(m) && m@ == "Invalid Token"@)),
        r matches Ok(c) ==> (auth_header matches Some(h) && has_bearer_prefix(h@) && (
        c.sub@,
        c.exp as nat,
        ) == jwt_claims_of(bearer_token_of(h@))),
{
    let h = match auth_header {
        Some(h) => h,
        None => {
            return Err(AppError::Unauthorized("Missing Authorization Header".to_owned()));
        },
    };
    let hs = h.as_str();
    let n = hs.unicode_len();
    if n < 7 || !(hs.get_char(0) == 'B' && hs.get_char(1) == 'e' && hs.get_char(2) == 'a'
        && hs.get_char(3) == 'r' && hs.get_char(4) == 'e' && hs.get_char(5) == 'r' && hs.get_char(
        6,
    ) == ' ') {
        return Err(AppError::Unauthorized("Invalid Bearer Token".to_owned()));
    }
    let token = hs.substring_char(7, n);
    match jwt_decode(token, secret) {
        Some(c) => Ok(c),
        None => Err(AppError::Unauthorized("Invalid Token".to_owned())),
    }
}

/// Law (session round trip): issuing a token for a subject and resolving it
/// straight back yields exactly that subject and expiry whenever validation
/// accepts — never some other subject. Whether validation accepts depends on
/// the signing outcome and the system clock, so only the accepted case is
/// pinned.
pub fn session_round_trip(user_id: &str, now: u64, secret: &[u8]) -> (r: Result<
    Claims,
    AppError,
>)
    requires
        now + SESSION_WINDOW_SECS <= u64::MAX,
    ensures
        r matches Ok(c) ==> (c.sub@ == user_id@ && c.exp as nat == now + SESSION_WINDOW_SECS),
{
    let token = match generate_token(user_id, now, secret) {
        Ok(t) => t,
        Err(e) => {
            return Err(e);
        },
    };
    let header = String::from_str("Bearer ").concat(token.as_str());
    proof {
        reveal_strlit("Bearer ");
        assert(header@ =~= "Bearer "@ + token@);
        assert(has_bearer_prefix(header@));
        assert(bearer_token_of(header@) =~= token@);
    }
    authorize_bearer(Some(&header), secret)
}

/// Law (session round trip, ghost form): a token that embeds one subject can
/// only ever validate back to that subject — two readings of one token's
/// embedded pair agree, so an accepted token issued for `sub` resolves to
/// `sub`.
pub proof fn lemma_session_token_subject(
    t: Seq<char>,
    sub: Seq<char>,
    exp: nat,
    c_sub: Seq<char>,
    c_exp: nat,
)
    requires
        jwt_claims_of(t) == (sub, exp),
        jwt_claims_of(t) == (c_sub, c_exp),
    ensures
        c_sub == sub,
        c_exp == exp,
{
}

} // verus!
