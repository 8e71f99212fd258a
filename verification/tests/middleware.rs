use blrs::middleware::auth::bearer_token;
use blrs::middleware::ban::ban_verdict;
use blrs::middleware::cors::{CorsPolicy, cors_policy};
use blrs::middleware::cron::{cron_authorized, cron_rejected};
use blrs::middleware::logging::{LogLevel, completion_level, header, is_slow, request_id};
use blrs::model::err::ErrCode;
use blrs::service::ban::{CountReply, ban_key, fail_key, failure_count, is_banned_by};
use blrs::util::Headers;

#[test]
fn admin_needs_a_bearer_token() {
    let mut h = Headers::new();
    assert_eq!(bearer_token(&h).unwrap_err().msg, "缺少 Authorization: Bearer <token>");
    h.insert("authorization", "Bearer  abc ");
    assert_eq!(bearer_token(&h).unwrap(), "abc");
    h.insert("authorization", "Basic abc");
    assert_eq!(bearer_token(&h).unwrap_err().code, ErrCode::Unauthorized);
    h.insert("authorization", "Bearer    ");
    assert!(bearer_token(&h).is_err());
}

#[test]
fn cron_secret_must_match() {
    let mut h = Headers::new();
    assert!(!cron_authorized(&h, "s3cret"));
    h.insert("authorization", "Bearer s3cret");
    assert!(cron_authorized(&h, "s3cret"));
    assert!(!cron_authorized(&h, "other"));
    assert_eq!(cron_rejected().msg, "invalid cron credentials");
}

#[test]
fn bans() {
    assert_eq!(ban_key("1.1.1.1"), "blrs:ban:1.1.1.1");
    assert_eq!(fail_key("1.1.1.1"), "blrs:login_fail:1.1.1.1");
    assert!(is_banned_by(CountReply::Count(1)));
    assert!(!is_banned_by(CountReply::Count(0)));
    assert!(!is_banned_by(CountReply::Unavailable));
    assert!(!is_banned_by(CountReply::Failed));
    assert_eq!(failure_count(CountReply::Count(3)), Some(3));
    assert_eq!(failure_count(CountReply::Failed), None);
    let e = ban_verdict(CountReply::Count(1)).unwrap_err();
    assert_eq!((e.code, e.msg.as_str()), (ErrCode::Forbidden, "forbidden"));
    assert!(ban_verdict(CountReply::Unavailable).is_ok());
}

#[test]
fn logging_helpers() {
    let mut h = Headers::new();
    assert_eq!(header(&h, "user-agent"), "");
    h.insert("user-agent", "curl/8");
    assert_eq!(header(&h, "user-agent"), "curl/8");
    assert_eq!(request_id(&h).len(), 36);
    h.insert("x-vercel-id", "v1");
    assert_eq!(request_id(&h), "v1");
    h.insert("x-request-id", "r1");
    assert_eq!(request_id(&h), "r1");
    assert_eq!(completion_level(503), LogLevel::Error);
    assert_eq!(completion_level(404), LogLevel::Warn);
    assert_eq!(completion_level(200), LogLevel::Info);
    assert!(is_slow(1001));
    assert!(!is_slow(1000));
}

#[test]
fn cors_origins() {
    let any = cors_policy(&vec!["https://a".to_string(), "*".to_string()]);
    assert!(matches!(any, CorsPolicy::AnyOrigin));
    match cors_policy(&vec!["https://a".to_string(), "bad\u{7f}".to_string()]) {
        CorsPolicy::Origins(list) => assert_eq!(list, vec!["https://a"]),
        CorsPolicy::AnyOrigin => panic!("no star was configured"),
    }
}
