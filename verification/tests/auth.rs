use blrs::handler::admin::auth::{LoginAction, LoginEvent, login_response, login_step, wrong_password};
use blrs::model::err::ErrCode;
use blrs::service::auth::{
    JwtFailure, hash_password, issue_token, new_claims, password_is_set, set_password, store_password,
    token_rejected, verify_login, verify_password, verify_token,
};

#[test]
fn password_roundtrip() {
    let hash = hash_password("hunter2!").unwrap();
    assert!(verify_password("hunter2!", &hash));
    assert!(!verify_password("hunter3!", &hash));
}

#[test]
fn malformed_hash_never_panics() {
    assert!(!verify_password("x", "not-a-phc-string"));
}

#[test]
fn no_stored_password_lets_login_pass() {
    assert!(verify_login(None, None));
    assert!(verify_login(None, Some("anything")));
    let hash = hash_password("secret1").unwrap();
    assert!(verify_login(Some(&hash), Some("secret1")));
    assert!(!verify_login(Some(&hash), None));
}

#[test]
fn short_passwords_are_refused() {
    let e = set_password("12345").unwrap_err();
    assert_eq!(e.code, ErrCode::BadRequest);
    assert_eq!(e.msg, "密码至少 6 位");
    let h = set_password("123456").unwrap();
    assert!(verify_password("123456", &h));
}

#[test]
fn third_failure_bans_a_trusted_address() {
    let ip = Some("1.2.3.4".to_string());
    assert!(matches!(login_step(&ip, LoginEvent::PasswordSet(true)), LoginAction::Verify));
    assert!(matches!(login_step(&ip, LoginEvent::Verified(false)), LoginAction::CountFailure(a) if a == "1.2.3.4"));
    assert!(matches!(login_step(&ip, LoginEvent::Counted(Some(2))), LoginAction::Reject));
    assert!(matches!(login_step(&ip, LoginEvent::Counted(Some(3))), LoginAction::Ban(a) if a == "1.2.3.4"));
    assert!(matches!(login_step(&ip, LoginEvent::Counted(None)), LoginAction::Reject));
    assert!(matches!(login_step(&ip, LoginEvent::Verified(true)), LoginAction::Accept { clear: Some(a) } if a == "1.2.3.4"));
}

#[test]
fn untrusted_address_is_never_counted() {
    let none = None;
    assert!(matches!(login_step(&none, LoginEvent::Verified(false)), LoginAction::Reject));
    assert!(matches!(login_step(&none, LoginEvent::Counted(Some(5))), LoginAction::Reject));
    assert!(matches!(login_step(&none, LoginEvent::PasswordSet(false)), LoginAction::Accept { clear: None }));
    assert_eq!(wrong_password().msg, "密码错误");
}

#[test]
fn fresh_claims_live_three_days() {
    let c = new_claims();
    assert_eq!(c.sub, "admin");
    assert_eq!(c.exp - c.iat, 3 * 24 * 3600);
    assert_eq!(c.jti.len(), 36);
    let r = login_response("t".to_string(), 0, true);
    assert_eq!(r.expire_at, "1970-01-01 08:00:00");
}

#[test]
fn token_errors_tell_expiry_apart() {
    let e = token_rejected(JwtFailure::Expired, "ExpiredSignature");
    assert_eq!(e.code, ErrCode::Unauthorized);
    assert_eq!(e.msg, "token expired");
    let e = token_rejected(JwtFailure::Invalid, "InvalidSignature");
    assert_eq!(e.msg, "invalid token");
    assert_eq!(e.internal, "InvalidSignature");
}

#[test]
fn issued_token_verifies_under_its_secret() {
    let (token, exp) = issue_token("s3cret").unwrap();
    let c = verify_token("s3cret", &token).unwrap();
    assert_eq!(c.sub, "admin");
    assert_eq!(c.exp, exp);
    assert_eq!(c.exp - c.iat, 3 * 24 * 3600);
    assert_eq!(c.jti.len(), 36);
}

#[test]
fn rotating_the_secret_revokes_tokens() {
    let (token, _) = issue_token("old-secret").unwrap();
    let e = verify_token("new-secret", &token).unwrap_err();
    assert_eq!(e.code, ErrCode::Unauthorized);
    assert_eq!(e.msg, "invalid token");
}

#[test]
fn malformed_token_is_refused() {
    let e = verify_token("s3cret", "not.a.jwt").unwrap_err();
    assert_eq!(e.code, ErrCode::Unauthorized);
}

#[test]
fn setting_a_password_then_reading_it_back() {
    let mut stored: Option<String> = None;
    assert!(!password_is_set(&stored));
    let e = store_password(&mut stored, "12345").unwrap_err();
    assert_eq!(e.code, ErrCode::BadRequest);
    assert_eq!(stored, None);
    store_password(&mut stored, "hunter2!").unwrap();
    assert!(password_is_set(&stored));
    let first = stored.clone().unwrap();
    assert!(verify_password("hunter2!", &first));
    assert!(!verify_password("hunter3!", &first));
    assert!(store_password(&mut stored, "short").is_err());
    assert_eq!(stored.as_deref(), Some(first.as_str()));
}

fn b64url_decode(s: &str) -> Vec<u8> {
    let alphabet = b"ABCDEFGHIJKLMNOPQRSTUVWXYZabcdefghijklmnopqrstuvwxyz0123456789-_";
    let mut bits: u32 = 0;
    let mut n = 0;
    let mut out = Vec::new();
    for c in s.bytes() {
        let v = alphabet.iter().position(|&a| a == c).unwrap() as u32;
        bits = (bits << 6) | v;
        n += 6;
        if n >= 8 {
            n -= 8;
            out.push((bits >> n) as u8);
            bits &= (1 << n) - 1;
        }
    }
    out
}

#[test]
fn token_claims_keep_their_order() {
    let (token, _) = issue_token("s3cret").unwrap();
    let parts: Vec<&str> = token.split('.').collect();
    assert_eq!(parts.len(), 3);
    let payload = String::from_utf8(b64url_decode(parts[1])).unwrap();
    let at = |k: &str| payload.find(&format!("\"{k}\"")).unwrap();
    assert!(at("sub") < at("iat") && at("iat") < at("exp") && at("exp") < at("jti"));
    assert!(payload.starts_with("{\"sub\":\"admin\""));
}
