//! The outermost layer: banned addresses are refused on every route.
use vstd::prelude::*;
use crate::model::err::{AppError, AppResult, ErrCode, is_client_error};
use crate::service::ban::{CountReply, is_banned_by};

verus! {

/// The verdict on a request from a trusted address, from the answer to the ban lookup: a ban
/// is a 403 on any route; no ban, no cache or a failed lookup lets the request through.
/// (A request without a trusted address is never looked up: a forgeable header must not get
/// anyone banned.)
pub fn ban_verdict(reply: CountReply) -> (r: AppResult<()>)
    ensures
        (reply matches CountReply::Count(n) && n > 0) ==> (r matches Err(e) && is_client_error(
            e,
            ErrCode::Forbidden,
            "forbidden"@,
        )),
        !(reply matches CountReply::Count(n) && n > 0) ==> r is Ok,
{
    if is_banned_by(reply) {
        Err(AppError::forbidden("forbidden"))
    } else {
        Ok(())
    }
}

} // verus!
