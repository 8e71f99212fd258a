//! Access logging: the request id, the header values that are logged, the log level.
use vstd::prelude::*;
use crate::util::{Headers, clone_opt, header_get, header_raw, is_uuid_text, new_id, opt_view};

verus! {

/// Requests slower than this get an extra warning.
pub const SLOW_REQUEST_MS: u128 = 1000;

pub const REQUEST_ID_HEADER: &'static str = "x-request-id";

/// A header as logged: its text, or empty when absent or not text.
pub open spec fn logged_header(h: Seq<(Seq<char>, Option<Seq<char>>)>, name: Seq<char>) -> Seq<char> {
    match header_get(h, name) {
        Some(Some(v)) => v,
        _ => Seq::empty(),
    }
}

/// A header value for the log. Whether a client forged it does not matter: it decides nothing.
pub fn header(headers: &Headers, name: &str) -> (v: String)
    ensures
        v@ == logged_header(headers@, name@),
{
    match header_raw(headers, name) {
        Some(Some(v)) => v,
        _ => String::new(),
    }
}

/// The request id a request is logged under and answered with: the caller's `x-request-id`,
/// else the platform's `x-vercel-id`, else a fresh id. The first of the two that is present
/// decides; when its value is not text a fresh id is used.
pub fn request_id(headers: &Headers) -> (id: String)
    ensures
        match header_get(headers@, REQUEST_ID_HEADER@) {
            Some(Some(v)) => id@ == v,
            Some(None) => is_uuid_text(id@),
            None => match header_get(headers@, "x-vercel-id"@) {
                Some(Some(v)) => id@ == v,
                _ => is_uuid_text(id@),
            },
        },
{
    let chosen = match header_raw(headers, REQUEST_ID_HEADER) {
        Some(v) => v,
        None => match header_raw(headers, "x-vercel-id") {
            Some(v) => v,
            None => None,
        },
    };
    match chosen {
        Some(v) => v,
        None => new_id(),
    }
}

/// The level of the line that closes a request.
#[derive(Debug, Clone, Copy, PartialEq, Eq, Structural)]
pub enum LogLevel {
    Info,
    Warn,
    Error,
}

/// Server errors are logged as errors, client errors as warnings, the rest as information.
pub fn completion_level(status: u16) -> (l: LogLevel)
    ensures
        l == (if 500 <= status <= 599 {
            LogLevel::Error
        } else if 400 <= status <= 499 {
            LogLevel::Warn
        } else {
            LogLevel::Info
        }),
{
    if 500 <= status && status <= 599 {
        LogLevel::Error
    } else if 400 <= status && status <= 499 {
        LogLevel::Warn
    } else {
        LogLevel::Info
    }
}

/// Whether a request took long enough for an extra warning.
pub fn is_slow(latency_ms: u128) -> (slow: bool)
    ensures
        slow == (latency_ms > SLOW_REQUEST_MS),
{
    latency_ms > SLOW_REQUEST_MS
}

} // verus!
