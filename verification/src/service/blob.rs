//! Direct-upload tokens for the blob store: the path, the request, and reading the answer.
use vstd::prelude::*;
use crate::config::{BLOB_ALLOWED_CONTENT_TYPES, BLOB_MAX_SIZE_BYTES, BLOB_TOKEN_TTL_MS};
use crate::model::err::{AppError, AppResult, ErrCode, generic_upstream_msg, is_error};
use crate::model::handler::admin::blob::{BlobTokenRes, SignedTokenRes};
use crate::text::concat;
use crate::util::{
    check_status, filename_spec, is_success_status, is_uuid_text, new_id, sanitize_filename,
    status_failure_detail,
};
use crate::util::time::now_millis;

verus! {

pub const BLOB_API_BASE: &'static str = "https://blob.vercel-storage.com";

pub const BLOB_API_VERSION: &'static str = "4";

/// Uploaded images are public: article bodies link to them directly.
pub const BLOB_ACCESS: &'static str = "public";

pub open spec fn filename_or_empty(filename: Option<&str>) -> Seq<char> {
    match filename {
        Some(f) => f@,
        None => Seq::empty(),
    }
}

/// `p` is `uploads/<uuid>/<safe name>` for the file name `filename`, and its only slashes are
/// the two separators.
pub open spec fn is_upload_path(p: Seq<char>, filename: Option<&str>) -> bool {
    let safe = filename_spec(filename_or_empty(filename));
    &&& p.len() == 45 + safe.len()
    &&& p.take(8) == "uploads/"@
    &&& is_uuid_text(p.subrange(8, 44))
    &&& p[44] == '/'
    &&& p.skip(45) == safe
    &&& forall|j: int| 0 <= j < p.len() ==> (#[trigger] p[j] == '/' <==> (j == 7 || j == 44))
}

/// The upload path, generated here: the client's file name only contributes a cleaned-up
/// last segment after a fresh id, so a client can neither choose nor overwrite an object.
pub fn build_pathname(filename: Option<&str>) -> (p: String)
    ensures
        is_upload_path(p@, filename),
{
    let name = match filename {
        Some(f) => f,
        None => "",
    };
    proof {
        reveal_strlit("");
        assert(name@ == filename_or_empty(filename));
    }
    let safe = sanitize_filename(name);
    let id = new_id();
    let a = concat("uploads/", id.as_str());
    let b = concat(a.as_str(), "/");
    let p = concat(b.as_str(), safe.as_str());
    proof {
        reveal_strlit("uploads/");
        reveal_strlit("/");
        let s = p@;
        assert(s.take(8) =~= "uploads/"@);
        assert(s.subrange(8, 44) =~= id@);
        assert(s.skip(45) =~= safe@);
        assert forall|j: int| 0 <= j < s.len() implies (#[trigger] s[j] == '/' <==> (j == 7 || j == 44)) by {
            if j < 8 {
                assert(s[j] == "uploads/"@[j]);
            } else if j < 44 {
                assert(s[j] == id@[j - 8]);
            } else if j > 44 {
                assert(s[j] == safe@[j - 45]);
                assert(safe@.contains(safe@[j - 45]));
            }
        }
    }
    p
}

/// What is asked of the blob API: a path, the moment the token stops working, the size limit
/// and the content types an upload may have. The single `put` operation is the service's.
#[derive(Debug, Clone)]
pub struct BlobTokenRequest {
    pub pathname: String,
    /// Milliseconds.
    pub valid_until: i64,
    /// Bytes.
    pub maximum_size_in_bytes: i64,
    pub allowed_content_types: Vec<&'static str>,
}

/// The content types an upload may have, in order.
fn allowed_types() -> (v: Vec<&'static str>)
    ensures
        v@ == BLOB_ALLOWED_CONTENT_TYPES@,
{
    let mut v: Vec<&'static str> = Vec::new();
    let mut i: usize = 0;
    while i < BLOB_ALLOWED_CONTENT_TYPES.len()
        invariant
            i <= BLOB_ALLOWED_CONTENT_TYPES@.len(),
            v@ == BLOB_ALLOWED_CONTENT_TYPES@.take(i as int),
        decreases BLOB_ALLOWED_CONTENT_TYPES@.len() - i,
    {
        v.push(BLOB_ALLOWED_CONTENT_TYPES[i]);
        assert(BLOB_ALLOWED_CONTENT_TYPES@.take(i + 1) == BLOB_ALLOWED_CONTENT_TYPES@.take(i as int).push(BLOB_ALLOWED_CONTENT_TYPES@[i as int]));
        i += 1;
    }
    assert(BLOB_ALLOWED_CONTENT_TYPES@.take(i as int) == BLOB_ALLOWED_CONTENT_TYPES@);
    v
}

/// When an upload token asked for at the clock reading `now_ms` stops working.
pub open spec fn token_expiry(now_ms: int) -> int {
    now_ms + BLOB_TOKEN_TTL_MS
}

/// The request for a direct-upload token for `filename`, asked at the clock reading `now_ms`
/// (Unix milliseconds): the token stops working five minutes later.
pub fn token_request_at(filename: Option<&str>, now_ms: i64) -> (r: BlobTokenRequest)
    requires
        0 <= now_ms < 0x20_0000_0000_0000,
    ensures
        is_upload_path(r.pathname@, filename),
        r.valid_until == now_ms + BLOB_TOKEN_TTL_MS,
        r.maximum_size_in_bytes == BLOB_MAX_SIZE_BYTES,
        r.allowed_content_types@ == BLOB_ALLOWED_CONTENT_TYPES@,
{
    let pathname = build_pathname(filename);
    BlobTokenRequest {
        pathname,
        valid_until: now_ms + BLOB_TOKEN_TTL_MS,
        maximum_size_in_bytes: BLOB_MAX_SIZE_BYTES,
        allowed_content_types: allowed_types(),
    }
}

/// The request for a direct-upload token for `filename`, valid for five minutes from now.
/// Which millisecond "now" is depends on the clock: it is some reading in `0..2^53`.
pub fn token_request(filename: Option<&str>) -> (r: BlobTokenRequest)
    ensures
        is_upload_path(r.pathname@, filename),
        r.maximum_size_in_bytes == BLOB_MAX_SIZE_BYTES,
        r.allowed_content_types@ == BLOB_ALLOWED_CONTENT_TYPES@,
        exists|now_ms: int| 0 <= now_ms < 0x20_0000_0000_0000 && r.valid_until == #[trigger] token_expiry(now_ms),
{
    let now_ms = now_millis();
    let r = token_request_at(filename, now_ms);
    assert(r.valid_until == token_expiry(now_ms as int));
    r
}

pub open spec fn unparsable_detail() -> Seq<char> {
    "blob 签发令牌响应格式异常"@
}

/// Reads the blob API's answer: a non-2xx status and an unparsable body are upstream errors;
/// otherwise the tokens go to the front end together with the path they are bound to.
pub fn token_response(pathname: String, status: u16, signed: Option<SignedTokenRes>) -> (r: AppResult<BlobTokenRes>)
    ensures
        !is_success_status(status) ==> (r matches Err(e) && is_error(
            e,
            ErrCode::Upstream,
            generic_upstream_msg(),
            status_failure_detail("blob 签发令牌失败"@, status),
        )),
        is_success_status(status) && signed is None ==> (r matches Err(e) && is_error(
            e,
            ErrCode::Upstream,
            generic_upstream_msg(),
            unparsable_detail(),
        )),
        is_success_status(status) && signed is Some ==> (r matches Ok(t) && t.delegation_token
            == signed->0.delegation_token && t.client_signing_token == signed->0.client_signing_token
            && t.valid_until == signed->0.valid_until && t.pathname == pathname && t.access@
            == BLOB_ACCESS@),
{
    match check_status("blob 签发令牌失败", status) {
        Err(e) => {
            return Err(e);
        },
        Ok(()) => {},
    }
    match signed {
        None => Err(AppError::upstream("blob 签发令牌响应格式异常")),
        Some(s) => Ok(
            BlobTokenRes {
                delegation_token: s.delegation_token,
                client_signing_token: s.client_signing_token,
                valid_until: s.valid_until,
                pathname,
                access: BLOB_ACCESS.to_owned(),
            },
        ),
    }
}

} // verus!
