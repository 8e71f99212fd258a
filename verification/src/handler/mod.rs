//! What the HTTP handlers decide, apart from the I/O they do: paging, validation of inputs and
//! the shape of every response.
pub mod admin;
pub mod bff;
pub mod cron;
pub mod search;

use vstd::prelude::*;
use crate::model::err::{AppResult, ErrCode, is_client_error};
use crate::model::handler::{ListQuery, offset_spec, page_size_spec, page_spec};

verus! {

/// `(page, page_size, offset)` of a list request, the first error in that order.
pub open spec fn page_params_spec(q: Seq<(Seq<char>, Seq<char>)>) -> Result<(i64, i64, i64), Seq<char>> {
    match page_spec(q) {
        Err(m) => Err(m),
        Ok(p) => match page_size_spec(q) {
            Err(m) => Err(m),
            Ok(s) => match offset_spec(q) {
                Err(m) => Err(m),
                Ok(o) => Ok((p, s, o)),
            },
        },
    }
}

/// The paging of a list request: page, page size and row offset.
pub fn page_params(q: &ListQuery) -> (r: AppResult<(i64, i64, i64)>)
    ensures
        match (r, page_params_spec(q@)) {
            (Ok(v), Ok(w)) => v == w,
            (Err(e), Err(m)) => is_client_error(e, ErrCode::BadRequest, m),
            _ => false,
        },
{
    let page = q.page()?;
    let page_size = q.page_size()?;
    let offset = q.offset()?;
    Ok((page, page_size, offset))
}

} // verus!
