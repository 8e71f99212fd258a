//! The admin guard: the bearer token of a request.
use vstd::prelude::*;
use crate::model::err::{AppError, AppResult, ErrCode, is_client_error};
use crate::text::{chars_of, has_prefix, slice_of, starts_with, string_from, trim, trimmed_chars};
use crate::util::{Headers, header_get, header_raw};

verus! {

/// The token of an `Authorization: Bearer <token>` value, trimmed, when there is a non-blank
/// one.
pub open spec fn bearer_of(value: Seq<char>) -> Option<Seq<char>> {
    if starts_with(value, "Bearer "@) && trim(value.skip(7)).len() > 0 {
        Some(trim(value.skip(7)))
    } else {
        None
    }
}

/// The bearer token of the request's `authorization` header.
pub open spec fn request_token(h: Seq<(Seq<char>, Option<Seq<char>>)>) -> Option<Seq<char>> {
    match header_get(h, "authorization"@) {
        Some(Some(v)) => bearer_of(v),
        _ => None,
    }
}

pub open spec fn missing_token_msg() -> Seq<char> {
    "缺少 Authorization: Bearer <token>"@
}

/// The text after `Bearer ` in `v`, trimmed, if `v` starts with it.
pub fn strip_bearer(v: &str) -> (r: Option<String>)
    ensures
        match r {
            Some(t) => starts_with(v@, "Bearer "@) && t@ == trim(v@.skip(7)),
            None => !starts_with(v@, "Bearer "@),
        },
{
    let cv = chars_of(v);
    proof {
        reveal_strlit("Bearer ");
    }
    if !has_prefix(&cv, "Bearer ") {
        return None;
    }
    let rest = slice_of(&cv, 7, cv.len());
    assert(rest@ == v@.skip(7));
    let s = string_from(&rest);
    let t = trimmed_chars(s.as_str());
    Some(string_from(&t))
}

/// The admin token of a request, or the 401 that a request without one gets.
pub fn bearer_token(headers: &Headers) -> (r: AppResult<String>)
    ensures
        match request_token(headers@) {
            Some(t) => r matches Ok(x) && x@ == t,
            None => r matches Err(e) && is_client_error(e, ErrCode::Unauthorized, missing_token_msg()),
        },
{
    let missing = "缺少 Authorization: Bearer <token>";
    match header_raw(headers, "authorization") {
        Some(Some(v)) => match strip_bearer(v.as_str()) {
            Some(t) => {
                if chars_of(t.as_str()).len() > 0 {
                    Ok(t)
                } else {
                    Err(AppError::unauthorized(missing))
                }
            },
            None => Err(AppError::unauthorized(missing)),
        },
        _ => Err(AppError::unauthorized(missing)),
    }
}

} // verus!
