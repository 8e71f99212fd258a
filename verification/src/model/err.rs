//! Error codes and the one error type every fallible operation of the crate returns.
use vstd::prelude::*;
use crate::model::handler::Res;
use crate::text::{chars_of, concat, same_chars};

verus! {

/// Business error code. It decides both the HTTP status and the `code` field of the body.
#[derive(Debug, Clone, Copy, PartialEq, Eq, Structural)]
pub enum ErrCode {
    /// Success (the envelope of every answered request).
    Success,
    BadRequest,
    Unauthorized,
    Forbidden,
    NotFound,
    Conflict,
    Unprocessable,
    /// Database failure.
    Db,
    /// A dependency failed (blob API, SMTP, search service).
    Upstream,
    /// Internal failure, configuration errors included.
    Internal,
}

/// The number that goes into the `code` field of the response envelope.
pub open spec fn code_number(c: ErrCode) -> i32 {
    match c {
        ErrCode::Success => 0,
        ErrCode::BadRequest => 40000,
        ErrCode::Unauthorized => 40100,
        ErrCode::Forbidden => 40300,
        ErrCode::NotFound => 40400,
        ErrCode::Conflict => 40900,
        ErrCode::Unprocessable => 42200,
        ErrCode::Internal => 50000,
        ErrCode::Db => 50001,
        ErrCode::Upstream => 50002,
    }
}

/// The HTTP status that goes with a code.
pub open spec fn http_status(c: ErrCode) -> u16 {
    match c {
        ErrCode::Success => 200,
        ErrCode::BadRequest => 400,
        ErrCode::Unauthorized => 401,
        ErrCode::Forbidden => 403,
        ErrCode::NotFound => 404,
        ErrCode::Conflict => 409,
        ErrCode::Unprocessable => 422,
        ErrCode::Internal | ErrCode::Db => 500,
        // A dependency broke, not us: 502 tells the two apart at a glance.
        ErrCode::Upstream => 502,
    }
}

impl ErrCode {
    pub fn as_i32(self) -> (n: i32)
        ensures
            n == code_number(self),
    {
        match self {
            ErrCode::Success => 0,
            ErrCode::BadRequest => 40000,
            ErrCode::Unauthorized => 40100,
            ErrCode::Forbidden => 40300,
            ErrCode::NotFound => 40400,
            ErrCode::Conflict => 40900,
            ErrCode::Unprocessable => 42200,
            ErrCode::Internal => 50000,
            ErrCode::Db => 50001,
            ErrCode::Upstream => 50002,
        }
    }

    /// The HTTP status code of this error code.
    pub fn http(self) -> (s: u16)
        ensures
            s == http_status(self),
    {
        match self {
            ErrCode::Success => 200,
            ErrCode::BadRequest => 400,
            ErrCode::Unauthorized => 401,
            ErrCode::Forbidden => 403,
            ErrCode::NotFound => 404,
            ErrCode::Conflict => 409,
            ErrCode::Unprocessable => 422,
            ErrCode::Internal | ErrCode::Db => 500,
            ErrCode::Upstream => 502,
        }
    }
}

/// The application error.
///
/// `msg` is the only part a client ever sees; `internal` goes to the log only, so anything
/// that could leak implementation details (SQL, connection strings, upstream bodies) belongs there.
#[derive(Debug)]
pub struct AppError {
    pub code: ErrCode,
    pub msg: String,
    pub internal: String,
    pub retryable: bool,
}

pub type AppResult<T> = Result<T, AppError>;

/// The error is `code` with the client message `msg` and the log detail `internal`.
pub open spec fn is_error(e: AppError, code: ErrCode, msg: Seq<char>, internal: Seq<char>) -> bool {
    &&& e.code == code
    &&& e.msg@ == msg
    &&& e.internal@ == internal
    &&& !e.retryable
}

/// A client-facing error: the message is shown to the client and logged as it is.
pub open spec fn is_client_error(e: AppError, code: ErrCode, msg: Seq<char>) -> bool {
    is_error(e, code, msg, msg)
}

/// What a client sees of a server-side error.
pub open spec fn generic_server_msg() -> Seq<char> {
    seq!['i', 'n', 't', 'e', 'r', 'n', 'a', 'l', ' ', 's', 'e', 'r', 'v', 'e', 'r', ' ', 'e', 'r', 'r', 'o', 'r']
}

/// What a client sees of an upstream failure.
pub open spec fn generic_upstream_msg() -> Seq<char> {
    seq!['u', 'p', 's', 't', 'r', 'e', 'a', 'm', ' ', 's', 'e', 'r', 'v', 'i', 'c', 'e', ' ', 'e', 'r', 'r', 'o', 'r']
}

fn text(s: &str) -> (r: String)
    ensures
        r@ == s@,
{
    s.to_owned()
}

impl AppError {
    pub(crate) fn new(code: ErrCode, msg: &str, internal: &str) -> (e: Self)
        ensures
            is_error(e, code, msg@, internal@),
    {
        AppError { code, msg: text(msg), internal: text(internal), retryable: false }
    }

    /// The client sent something invalid; the message says what, and holds nothing internal.
    pub fn bad_request(msg: &str) -> (e: Self)
        ensures
            is_client_error(e, ErrCode::BadRequest, msg@),
    {
        Self::new(ErrCode::BadRequest, msg, msg)
    }

    pub fn unauthorized(msg: &str) -> (e: Self)
        ensures
            is_client_error(e, ErrCode::Unauthorized, msg@),
    {
        Self::new(ErrCode::Unauthorized, msg, msg)
    }

    pub fn forbidden(msg: &str) -> (e: Self)
        ensures
            is_client_error(e, ErrCode::Forbidden, msg@),
    {
        Self::new(ErrCode::Forbidden, msg, msg)
    }

    pub fn not_found(msg: &str) -> (e: Self)
        ensures
            is_client_error(e, ErrCode::NotFound, msg@),
    {
        Self::new(ErrCode::NotFound, msg, msg)
    }

    pub fn conflict(msg: &str) -> (e: Self)
        ensures
            is_client_error(e, ErrCode::Conflict, msg@),
    {
        Self::new(ErrCode::Conflict, msg, msg)
    }

    pub fn unprocessable(msg: &str) -> (e: Self)
        ensures
            is_client_error(e, ErrCode::Unprocessable, msg@),
    {
        Self::new(ErrCode::Unprocessable, msg, msg)
    }

    /// Server-side failure: the client only sees "internal server error".
    pub fn internal(internal: &str) -> (e: Self)
        ensures
            is_error(e, ErrCode::Internal, generic_server_msg(), internal@),
    {
        let e = Self::new(ErrCode::Internal, "internal server error", internal);
        proof {
            reveal_strlit("internal server error");
            assert("internal server error"@ =~= generic_server_msg());
        }
        e
    }

    pub fn db(internal: &str) -> (e: Self)
        ensures
            is_error(e, ErrCode::Db, generic_server_msg(), internal@),
    {
        let e = Self::new(ErrCode::Db, "internal server error", internal);
        proof {
            reveal_strlit("internal server error");
            assert("internal server error"@ =~= generic_server_msg());
        }
        e
    }

    pub fn upstream(internal: &str) -> (e: Self)
        ensures
            is_error(e, ErrCode::Upstream, generic_upstream_msg(), internal@),
    {
        let e = Self::new(ErrCode::Upstream, "upstream service error", internal);
        proof {
            reveal_strlit("upstream service error");
            assert("upstream service error"@ =~= generic_upstream_msg());
        }
        e
    }

    /// The same error, marked as worth retrying.
    pub fn retryable(self) -> (e: Self)
        ensures
            e.code == self.code,
            e.msg == self.msg,
            e.internal == self.internal,
            e.retryable,
    {
        let mut e = self;
        e.retryable = true;
        e
    }
}


// ---------------------------------------------------------------------------
// The response of an error
// ---------------------------------------------------------------------------

/// The status and body an error is answered with: the envelope carries the code and the
/// client message only, never the internal detail.
pub fn error_envelope(e: AppError) -> (r: (u16, Res<()>))
    ensures
        r.0 == http_status(e.code),
        r.1.code == code_number(e.code),
        r.1.msg == e.msg,
        r.1.data is None,
{
    let status = e.code.http();
    let code = e.code.as_i32();
    (status, Res { code, msg: e.msg, data: None })
}

/// Whether an error is logged as a server failure (5xx) rather than a refused request.
pub fn is_server_failure(code: ErrCode) -> (b: bool)
    ensures
        b == (http_status(code) >= 500),
{
    code.http() >= 500
}

// ---------------------------------------------------------------------------
// Errors of the outside services
// ---------------------------------------------------------------------------

/// How a database call failed.
pub enum DbFailure {
    /// A query that must return a row returned none.
    RowNotFound,
    /// The database refused the statement, with this SQLSTATE when it gave one.
    Database { code: Option<String> },
    /// Anything else (connection, protocol, decoding ...).
    Other,
}

pub open spec fn db_error(kind: DbFailure, detail: Seq<char>, e: AppError) -> bool {
    match kind {
        DbFailure::RowNotFound => is_client_error(e, ErrCode::NotFound, "资源不存在"@),
        DbFailure::Database { code: Some(c) } => if c@ == "23505"@ {
            is_client_error(e, ErrCode::Conflict, "记录已存在"@)
        } else if c@ == "23503"@ || c@ == "23502"@ {
            is_client_error(e, ErrCode::Unprocessable, "数据不满足完整性约束"@)
        } else {
            is_error(e, ErrCode::Db, generic_server_msg(), detail)
        },
        _ => is_error(e, ErrCode::Db, generic_server_msg(), detail),
    }
}

fn is_code(c: &String, lit: &str) -> (b: bool)
    ensures
        b == (c@ == lit@),
{
    same_chars(&chars_of(c.as_str()), &chars_of(lit))
}

/// The error of a failed database call: a unique violation is a conflict, a foreign-key or
/// not-null violation an unprocessable request, a missing row not found; everything else is a
/// database error whose detail stays in the log.
pub fn db_failure(kind: DbFailure, detail: &str) -> (e: AppError)
    ensures
        db_error(kind, detail@, e),
{
    match kind {
        DbFailure::RowNotFound => AppError::not_found("资源不存在"),
        DbFailure::Database { code: Some(c) } => {
            if is_code(&c, "23505") {
                AppError::conflict("记录已存在")
            } else if is_code(&c, "23503") || is_code(&c, "23502") {
                AppError::unprocessable("数据不满足完整性约束")
            } else {
                AppError::db(detail)
            }
        },
        _ => AppError::db(detail),
    }
}

/// A dependency whose failures map to one kind of error each.
pub enum Outside {
    /// The cache.
    Valkey,
    /// The HTTP client.
    HttpClient,
    /// Parsing a JSON request body.
    Json,
    /// Reading the environment.
    Env,
    /// Building a mail.
    Lettre,
    /// The SMTP transport.
    Smtp,
}

pub open spec fn outside_error(source: Outside, detail: Seq<char>, e: AppError) -> bool {
    match source {
        Outside::Valkey => e.code == ErrCode::Internal && e.msg@ == generic_server_msg()
            && e.internal@ == "valkey: "@ + detail && e.retryable,
        Outside::HttpClient => e.code == ErrCode::Upstream && e.msg@ == generic_upstream_msg()
            && e.internal@ == "http client: "@ + detail && e.retryable,
        Outside::Json => is_client_error(e, ErrCode::BadRequest, "请求体不是合法 JSON: "@ + detail),
        Outside::Env => is_error(e, ErrCode::Internal, generic_server_msg(), "环境变量缺失: "@ + detail),
        Outside::Lettre => is_error(e, ErrCode::Upstream, generic_upstream_msg(), "lettre: "@ + detail),
        Outside::Smtp => is_error(e, ErrCode::Upstream, generic_upstream_msg(), "smtp: "@ + detail),
    }
}

/// The error of a failed outside call, `detail` being the failure's own text. Cache and HTTP
/// client failures are worth retrying.
pub fn outside_failure(source: Outside, detail: &str) -> (e: AppError)
    ensures
        outside_error(source, detail@, e),
{
    match source {
        Outside::Valkey => AppError::internal(concat("valkey: ", detail).as_str()).retryable(),
        Outside::HttpClient => AppError::upstream(concat("http client: ", detail).as_str()).retryable(),
        Outside::Json => AppError::bad_request(concat("请求体不是合法 JSON: ", detail).as_str()),
        Outside::Env => AppError::internal(concat("环境变量缺失: ", detail).as_str()),
        Outside::Lettre => AppError::upstream(concat("lettre: ", detail).as_str()),
        Outside::Smtp => AppError::upstream(concat("smtp: ", detail).as_str()),
    }
}

/// How a blob store call failed.
pub enum BlobFailure {
    NotFound,
    /// The request was refused, with the store's message.
    BadRequest(String),
    /// The input was refused, with the store's message.
    InvalidInput(String),
    /// Authentication, permission or store state: a configuration problem of this server.
    Configuration,
    /// The HTTP exchange failed, or an unknown error came back.
    Transport,
}

pub open spec fn blob_error(kind: BlobFailure, detail: Seq<char>, e: AppError) -> bool {
    match kind {
        BlobFailure::NotFound => is_client_error(e, ErrCode::NotFound, "文件不存在"@),
        BlobFailure::BadRequest(m) => is_client_error(e, ErrCode::BadRequest, m@),
        BlobFailure::InvalidInput(m) => is_client_error(e, ErrCode::BadRequest, m@),
        BlobFailure::Configuration => is_error(e, ErrCode::Internal, generic_server_msg(), "blob 配置错误: "@ + detail),
        BlobFailure::Transport => e.code == ErrCode::Upstream && e.msg@ == generic_upstream_msg()
            && e.internal@ == "blob api: "@ + detail && e.retryable,
    }
}

/// The error of a failed blob store call. Authentication and store problems are this server's
/// configuration and answer 500, never 403: the browser must not think it lacks rights.
pub fn blob_failure(kind: BlobFailure, detail: &str) -> (e: AppError)
    ensures
        blob_error(kind, detail@, e),
{
    match kind {
        BlobFailure::NotFound => AppError::not_found("文件不存在"),
        BlobFailure::BadRequest(m) => AppError::bad_request(m.as_str()),
        BlobFailure::InvalidInput(m) => AppError::bad_request(m.as_str()),
        BlobFailure::Configuration => AppError::internal(concat("blob 配置错误: ", detail).as_str()),
        BlobFailure::Transport => AppError::upstream(concat("blob api: ", detail).as_str()).retryable(),
    }
}

} // verus!
