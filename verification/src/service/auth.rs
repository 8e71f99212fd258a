//! Admin password hashing and the claims of an admin token.
use vstd::prelude::*;
use argon2::{Argon2, PasswordHasher, PasswordVerifier};
use jsonwebtoken::errors::ErrorKind::ExpiredSignature;
use serde_json::Value;
use crate::service::auth::JwtFailure::{Expired, Invalid};
use jsonwebtoken::Algorithm::HS256;
use jsonwebtoken::{Algorithm, DecodingKey, EncodingKey, Header, Validation, decode, encode};
use crate::config::JWT_TTL_SECS;
use crate::model::err::{AppError, AppResult, ErrCode, generic_server_msg, is_client_error, is_error};
use crate::text::{chars_of, concat};
use crate::util::{is_uuid_text, new_id, opt_str_view};
use crate::util::time::now_secs;

verus! {

/// Shortest accepted password. An empty one would clear `site_secret`, and then anyone logs in.
pub const MIN_PASSWORD_LEN: usize = 6;

/// Whether argon2 accepts `password` against the PHC string `phc` (what
/// `Argon2::default().verify_password(password, phc)` decides: parse the PHC string, hash the
/// password with its salt and parameters, compare).
pub uninterp spec fn argon2_accepts(password: Seq<char>, phc: Seq<char>) -> bool;

/// `Argon2::default().hash_password(password)` as a PHC string.
///
/// The salt is random, so which string comes back is chance; the contract says what argon2's
/// documentation promises of every one: verifying the same password against it succeeds.
/// Failures (salt generation, internal limits) come back as the error's text.
#[verifier::external_body]
fn argon2_hash(password: &str) -> (r: Result<String, String>)
    ensures
        r matches Ok(h) ==> argon2_accepts(password@, h@),
{
    match Argon2::default().hash_password(password.as_bytes()) {
        Ok(hash) => Ok(hash.to_string()),
        Err(e) => Err(e.to_string()),
    }
}

/// `Argon2::default().verify_password(password, phc).is_ok()`: parses the PHC string and checks
/// the password against it in constant time; an unparsable string is a refusal. Parsing
/// (`phc::PasswordHash::new`) refuses a string that does not begin with `$`.
#[verifier::external_body]
fn argon2_verify(password: &str, phc: &str) -> (ok: bool)
    ensures
        ok == argon2_accepts(password@, phc@),
        !(phc@.len() > 0 && phc@[0] == '$') ==> !ok,
{
    Argon2::default().verify_password(password.as_bytes(), phc).is_ok()
}

pub open spec fn hash_failed_detail(reason: Seq<char>) -> Seq<char> {
    "密码散列失败: "@ + reason
}

/// Hashes a password for storage.
pub fn hash_password(pswd: &str) -> (r: AppResult<String>)
    ensures
        match r {
            Ok(h) => argon2_accepts(pswd@, h@),
            Err(e) => e.code == ErrCode::Internal && e.msg@ == generic_server_msg(),
        },
{
    match argon2_hash(pswd) {
        Ok(h) => Ok(h),
        Err(reason) => Err(AppError::internal(concat("密码散列失败: ", reason.as_str()).as_str())),
    }
}

/// Checks a password against a stored hash. A stored value that is no PHC string never
/// matches.
pub fn verify_password(pswd: &str, hash: &str) -> (ok: bool)
    ensures
        ok == argon2_accepts(pswd@, hash@),
        !(hash@.len() > 0 && hash@[0] == '$') ==> !ok,
{
    argon2_verify(pswd, hash)
}

/// Whether a login passes, given the stored hash (`None`: no password set yet) and the
/// password sent (`None`: none sent, checked as empty).
///
/// Without a stored password every login passes: the first login needs none, and the admin
/// sets one right after.
pub fn verify_login(stored_hash: Option<&str>, pswd: Option<&str>) -> (ok: bool)
    ensures
        ok == match stored_hash {
            None => true,
            Some(h) => argon2_accepts(
                match pswd {
                    Some(p) => p@,
                    None => Seq::<char>::empty(),
                },
                h@,
            ),
        },
{
    match stored_hash {
        None => true,
        Some(h) => match pswd {
            Some(p) => verify_password(p, h),
            None => {
                let empty = "";
                proof {
                    reveal_strlit("");
                    assert(empty@ =~= Seq::<char>::empty());
                }
                verify_password(empty, h)
            },
        },
    }
}

pub open spec fn short_password_msg() -> Seq<char> {
    "密码至少 6 位"@
}

/// Checks a new admin password and hashes it for storage: fewer than six characters is a bad
/// request.
pub fn set_password(pswd: &str) -> (r: AppResult<String>)
    ensures
        pswd@.len() < MIN_PASSWORD_LEN ==> (r matches Err(e) && is_client_error(
            e,
            ErrCode::BadRequest,
            short_password_msg(),
        )),
        pswd@.len() >= MIN_PASSWORD_LEN ==> match r {
            Ok(h) => argon2_accepts(pswd@, h@),
            Err(e) => e.code == ErrCode::Internal,
        },
{
    if chars_of(pswd).len() < MIN_PASSWORD_LEN {
        return Err(AppError::bad_request("密码至少 6 位"));
    }
    hash_password(pswd)
}

/// Whether an admin password is set: the site holds a stored hash.
pub open spec fn password_set(stored: Option<String>) -> bool {
    stored is Some
}

/// Whether an admin password is set, given the site's stored hash (`None`: none stored, or no
/// site record yet).
pub fn password_is_set(stored: &Option<String>) -> (b: bool)
    ensures
        b == password_set(*stored),
{
    stored.is_some()
}

/// Sets the admin password in the site's stored hash. A password under six characters is a
/// bad request and so is a failed hash; either way the stored hash stays as it was. On success
/// a password is set and the stored hash accepts exactly the password just given (a site
/// without a record gets one).
pub fn store_password(stored: &mut Option<String>, pswd: &str) -> (r: AppResult<()>)
    ensures
        pswd@.len() < MIN_PASSWORD_LEN ==> (r matches Err(e) && is_client_error(
            e,
            ErrCode::BadRequest,
            short_password_msg(),
        )),
        pswd@.len() >= MIN_PASSWORD_LEN ==> (r matches Err(e) ==> e.code == ErrCode::Internal),
        r is Err ==> *final(stored) == *old(stored),
        r is Ok ==> password_set(*final(stored)) && (*final(stored) matches Some(h) && argon2_accepts(
            pswd@,
            h@,
        )),
{
    match set_password(pswd) {
        Ok(h) => {
            *stored = Some(h);
            Ok(())
        },
        Err(e) => Err(e),
    }
}

/// The claims of an admin token.
#[derive(Debug, Clone)]
pub struct AdminClaims {
    pub sub: String,
    pub iat: i64,
    pub exp: i64,
    pub jti: String,
}

/// Claims of a fresh admin token: subject `admin`, issued now, expiring three days later,
/// with a fresh id.
pub fn new_claims() -> (c: AdminClaims)
    ensures
        c.sub@ == "admin"@,
        0 <= c.iat,
        c.exp == c.iat + JWT_TTL_SECS,
        is_uuid_text(c.jti@),
{
    let now = now_secs();
    AdminClaims { sub: "admin".to_owned(), iat: now, exp: now + JWT_TTL_SECS, jti: new_id() }
}

/// Why a token was not accepted.
pub enum JwtFailure {
    /// The signature is fine but the token has expired.
    Expired,
    /// Anything else (bad signature, malformed token, wrong algorithm ...).
    Invalid,
}

pub open spec fn token_error(kind: JwtFailure, detail: Seq<char>, e: AppError) -> bool {
    match kind {
        JwtFailure::Expired => is_client_error(e, ErrCode::Unauthorized, "token expired"@),
        JwtFailure::Invalid => is_error(e, ErrCode::Unauthorized, "invalid token"@, detail),
    }
}

/// The error a rejected token is answered with. Expiry is normal and gets its own message so
/// the front end can send the admin back to the login page.
pub fn token_rejected(kind: JwtFailure, detail: &str) -> (e: AppError)
    ensures
        token_error(kind, detail@, e),
{
    match kind {
        JwtFailure::Expired => AppError::unauthorized("token expired"),
        JwtFailure::Invalid => AppError::new(ErrCode::Unauthorized, "invalid token", detail),
    }
}

/// The HS256 token `jsonwebtoken::encode` makes for the claims `sub`, `iat`, `exp`, `jti`
/// (a JSON object of these four, in this order) under the HMAC secret `secret`, with the header
/// `{"typ":"JWT","alg":"HS256"}`.
pub uninterp spec fn jwt_hs256(sub: Seq<char>, iat: i64, exp: i64, jti: Seq<char>, secret: Seq<char>) -> Seq<char>;

/// The claims `(sub, iat, exp, jti)` that `token` carries under `secret`: `Some` when the token
/// is a JWT whose header names HS256, whose signature is the HMAC-SHA256 of its first two parts
/// under `secret`, and whose payload is a JSON object with string `sub` and `jti` and integer
/// `iat` and `exp`; `None` otherwise. Whether the token has expired is not part of it.
pub uninterp spec fn jwt_claims(token: Seq<char>, secret: Seq<char>) -> Option<(Seq<char>, i64, i64, Seq<char>)>;

/// `jsonwebtoken::encode` with an HS256 header and `EncodingKey::from_secret(secret)`, over a
/// `serde_json::Map` of the four claims (insertion-ordered: `serde_json` is built with
/// `preserve_order`).
///
/// The token is a function of the claims and the secret (HMAC is deterministic); decoding it
/// with the same secret gives the same claims back. A failure comes back as the error's text.
#[verifier::external_body]
fn jwt_sign(sub: &str, iat: i64, exp: i64, jti: &str, secret: &str) -> (r: Result<String, String>)
    ensures
        r matches Ok(t) ==> t@ == jwt_hs256(sub@, iat, exp, jti@, secret@) && jwt_claims(t@, secret@)
            == Some((sub@, iat, exp, jti@)),
{
    let mut claims = serde_json::Map::new();
    claims.insert("sub".to_owned(), sub.into());
    claims.insert("iat".to_owned(), iat.into());
    claims.insert("exp".to_owned(), exp.into());
    claims.insert("jti".to_owned(), jti.into());
    let key = EncodingKey::from_secret(secret.as_bytes());
    encode(&Header::new(Algorithm::HS256), &claims, &key).map_err(|e| e.to_string())
}

/// `jsonwebtoken::decode` with `DecodingKey::from_secret(secret)` and
/// `Validation::new(Algorithm::HS256)`, the four claims read out of the decoded JSON object.
///
/// Decoding also checks `exp` against the clock (with a minute of leeway) and refuses a token
/// that carries an audience; which tokens the clock refuses is not stated. What holds of every
/// outcome: accepted claims are the token's claims under the secret, and a token that does not
/// carry such claims is refused. An expired token is `Expired`; every other failure is
/// `Invalid`, with the error's text.
#[verifier::external_body]
fn jwt_check(token: &str, secret: &str) -> (r: Result<AdminClaims, (JwtFailure, String)>)
    ensures
        r matches Ok(c) ==> jwt_claims(token@, secret@) == Some((c.sub@, c.iat, c.exp, c.jti@)),
        jwt_claims(token@, secret@) is None ==> r is Err,
{
    let key = DecodingKey::from_secret(secret.as_bytes());
    let c = match decode::<Value>(token, &key, &Validation::new(HS256)) {
        Ok(data) => data.claims,
        Err(e) => {
            let k = if matches!(e.kind(), ExpiredSignature) { Expired } else { Invalid };
            return Err((k, e.to_string()));
        },
    };
    match (c["sub"].as_str(), c["iat"].as_i64(), c["exp"].as_i64(), c["jti"].as_str()) {
        (Some(sub), Some(iat), Some(exp), Some(jti)) => Ok(AdminClaims { sub: sub.into(), iat, exp, jti: jti.into() }),
        _ => Err((Invalid, "claims missing or mistyped".into())),
    }
}

/// A token issued for the admin under `secret` that expires at `exp`: subject `admin`, issued
/// at a second `iat` three days before `exp`, with a fresh id; it carries exactly these claims.
pub open spec fn admin_token(token: Seq<char>, exp: i64, secret: Seq<char>) -> bool {
    exists|iat: i64, jti: Seq<char>|
        0 <= iat && exp == iat + JWT_TTL_SECS && is_uuid_text(jti) && token == #[trigger] jwt_hs256(
            "admin"@,
            iat,
            exp,
            jti,
            secret,
        ) && jwt_claims(token, secret) == Some(("admin"@, iat, exp, jti))
}

/// Signs a fresh admin token under `secret`: the token and the second it expires. A signing
/// failure is answered like a refused token.
pub fn issue_token(secret: &str) -> (r: AppResult<(String, i64)>)
    ensures
        match r {
            Ok((t, exp)) => admin_token(t@, exp, secret@),
            Err(e) => exists|d: Seq<char>| token_error(JwtFailure::Invalid, d, e),
        },
{
    let c = new_claims();
    match jwt_sign(c.sub.as_str(), c.iat, c.exp, c.jti.as_str(), secret) {
        Ok(t) => {
            assert(t@ == jwt_hs256(c.sub@, c.iat, c.exp, c.jti@, secret@));
            Ok((t, c.exp))
        },
        Err(d) => Err(token_rejected(JwtFailure::Invalid, d.as_str())),
    }
}

/// Checks an admin token under `secret`: the claims it carries, or the refusal. Accepted claims
/// are always the claims the token carries under this secret; a token that carries none under
/// it is refused.
pub fn verify_token(secret: &str, token: &str) -> (r: AppResult<AdminClaims>)
    ensures
        r matches Ok(c) ==> jwt_claims(token@, secret@) == Some((c.sub@, c.iat, c.exp, c.jti@)),
        jwt_claims(token@, secret@) is None ==> r is Err,
        r matches Err(e) ==> exists|k: JwtFailure, d: Seq<char>| token_error(k, d, e),
{
    match jwt_check(token, secret) {
        Ok(c) => Ok(c),
        Err((k, d)) => {
            let e = token_rejected(k, d.as_str());
            Err(e)
        },
    }
}

} // verus!
