use blrs::service::blob::{build_pathname, token_request, token_request_at, token_response};
use blrs::model::handler::admin::blob::SignedTokenRes;
use blrs::model::err::ErrCode;

#[test]
fn pathname_is_server_generated_and_prefix_scoped() {
    let p = build_pathname(Some("../../etc/passwd"));
    assert!(p.starts_with("uploads/"));
    assert!(p.ends_with("etc_passwd"));
    // after cleaning, no traversal is left
    assert!(!p.contains(".."));
    // only the two separators of `uploads/<uuid>/<name>`
    assert_eq!(p.matches('/').count(), 2);
}

#[test]
fn pathname_handles_missing_filename() {
    assert!(build_pathname(None).ends_with("/file"));
}

#[test]
fn token_answers_are_checked() {
    let e = token_response("p".to_string(), 403, None).unwrap_err();
    assert_eq!(e.code, ErrCode::Upstream);
    assert_eq!(e.internal, "blob 签发令牌失败, HTTP 403");
    let e = token_response("p".to_string(), 200, None).unwrap_err();
    assert_eq!(e.internal, "blob 签发令牌响应格式异常");
    let ok = token_response(
        "uploads/x/a.png".to_string(),
        200,
        Some(SignedTokenRes {
            delegation_token: "d".to_string(),
            client_signing_token: "c".to_string(),
            valid_until: 7,
        }),
    )
    .unwrap();
    assert_eq!(ok.access, "public");
    assert_eq!(ok.pathname, "uploads/x/a.png");
    assert_eq!(ok.valid_until, 7);
}

#[test]
fn upload_token_lives_five_minutes_from_the_reading() {
    let r = token_request_at(Some("cat.png"), 1_700_000_000_000);
    assert_eq!(r.valid_until, 1_700_000_300_000);
    assert!(r.pathname.starts_with("uploads/"));
    assert!(r.pathname.ends_with("/cat.png"));
    assert_eq!(r.maximum_size_in_bytes, 25 * 1024 * 1024);
    assert_eq!(r.allowed_content_types.len(), 8);
    assert_eq!(r.allowed_content_types[0], "image/jpeg");
    assert!(r.allowed_content_types.contains(&"image/svg+xml"));
    let now = token_request(None);
    assert!(now.valid_until > 1_700_000_300_000);
}
