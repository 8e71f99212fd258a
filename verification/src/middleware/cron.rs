//! The guard of the scheduled jobs: the platform sends `Authorization: Bearer <CRON_SECRET>`.
use vstd::prelude::*;
use crate::middleware::auth::strip_bearer;
use crate::model::err::{AppError, ErrCode, is_client_error};
use crate::text::{starts_with, trim};
use crate::util::{Headers, constant_time_eq, header_get, header_raw};

verus! {

/// What the request offers as the cron secret: the trimmed bearer text, or empty.
pub open spec fn offered_secret(h: Seq<(Seq<char>, Option<Seq<char>>)>) -> Seq<char> {
    match header_get(h, "authorization"@) {
        Some(Some(v)) => if starts_with(v, "Bearer "@) {
            trim(v.skip(7))
        } else {
            Seq::empty()
        },
        _ => Seq::empty(),
    }
}

/// Whether the request carries the cron secret, compared in constant time.
pub fn cron_authorized(headers: &Headers, secret: &str) -> (ok: bool)
    ensures
        ok == (offered_secret(headers@) == secret@),
{
    let provided = match header_raw(headers, "authorization") {
        Some(Some(v)) => match strip_bearer(v.as_str()) {
            Some(t) => t,
            None => String::new(),
        },
        _ => String::new(),
    };
    constant_time_eq(provided.as_str(), secret)
}

/// The answer to a scheduled call without the right secret.
pub fn cron_rejected() -> (e: AppError)
    ensures
        is_client_error(e, ErrCode::Unauthorized, "invalid cron credentials"@),
{
    AppError::unauthorized("invalid cron credentials")
}

} // verus!
