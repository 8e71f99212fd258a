use blrs::model::err::{
    AppError, BlobFailure, DbFailure, ErrCode, Outside, blob_failure, db_failure, error_envelope,
    is_server_failure, outside_failure,
};

#[test]
fn codes_and_statuses() {
    assert_eq!(ErrCode::Success.as_i32(), 0);
    assert_eq!(ErrCode::Unprocessable.as_i32(), 42200);
    assert_eq!(ErrCode::Upstream.as_i32(), 50002);
    assert_eq!(ErrCode::Upstream.http(), 502);
    assert_eq!(ErrCode::Db.http(), 500);
    assert!(is_server_failure(ErrCode::Db));
    assert!(!is_server_failure(ErrCode::Forbidden));
}

#[test]
fn server_errors_hide_their_detail() {
    let e = AppError::db("relation does not exist");
    assert_eq!(e.msg, "internal server error");
    let (status, body) = error_envelope(e);
    assert_eq!(status, 500);
    assert_eq!(body.code, 50001);
    assert_eq!(body.msg, "internal server error");
    assert!(body.data.is_none());
    let e = AppError::upstream("x").retryable();
    assert!(e.retryable);
    assert_eq!(e.msg, "upstream service error");
}

#[test]
fn database_failures_map_by_state() {
    let e = db_failure(DbFailure::Database { code: Some("23505".to_string()) }, "dup");
    assert_eq!((e.code, e.msg.as_str()), (ErrCode::Conflict, "记录已存在"));
    let e = db_failure(DbFailure::Database { code: Some("23502".to_string()) }, "null");
    assert_eq!(e.code, ErrCode::Unprocessable);
    let e = db_failure(DbFailure::RowNotFound, "none");
    assert_eq!(e.msg, "资源不存在");
    let e = db_failure(DbFailure::Database { code: Some("42P01".to_string()) }, "detail");
    assert_eq!((e.code, e.internal.as_str()), (ErrCode::Db, "detail"));
    assert_eq!(db_failure(DbFailure::Other, "io").code, ErrCode::Db);
}

#[test]
fn outside_failures_map_by_source() {
    let e = outside_failure(Outside::Valkey, "refused");
    assert_eq!((e.code, e.internal.as_str(), e.retryable), (ErrCode::Internal, "valkey: refused", true));
    let e = outside_failure(Outside::Json, "eof");
    assert_eq!((e.code, e.msg.as_str()), (ErrCode::BadRequest, "请求体不是合法 JSON: eof"));
    assert_eq!(outside_failure(Outside::Smtp, "x").internal, "smtp: x");
    let e = blob_failure(BlobFailure::Configuration, "401");
    assert_eq!((e.code, e.internal.as_str()), (ErrCode::Internal, "blob 配置错误: 401"));
    let e = blob_failure(BlobFailure::BadRequest("too big".to_string()), "");
    assert_eq!((e.code, e.msg.as_str()), (ErrCode::BadRequest, "too big"));
    assert!(blob_failure(BlobFailure::Transport, "t").retryable);
}
