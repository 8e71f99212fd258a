use blrs::util::{
    Headers, client_ip, constant_time_eq, optional_text, required_text, sanitize_filename,
    sanitize_header_value, trusted_client_ip, validate_email, validate_site_url,
};
use blrs::model::err::ErrCode;

#[test]
fn sanitize_filename_strips_path_traversal() {
    assert_eq!(sanitize_filename("../../etc/passwd"), "etc_passwd");
    assert_eq!(sanitize_filename("/绝对路径.png"), "绝对路径.png");
    assert_eq!(sanitize_filename(""), "file");
    assert_eq!(sanitize_filename(".."), "file");
    assert_eq!(sanitize_filename("a.png"), "a.png");
}

#[test]
fn trusted_ip_ignores_spoofable_first_hop() {
    let mut h = Headers::new();
    h.insert("x-forwarded-for", "1.2.3.4, 10.0.0.1");
    // the client can only write the first hop, so only the last one is believed
    assert_eq!(trusted_client_ip(&h).as_deref(), Some("10.0.0.1"));

    let mut h2 = Headers::new();
    h2.insert("x-real-ip", "5.6.7.8");
    assert_eq!(trusted_client_ip(&h2).as_deref(), Some("5.6.7.8"));

    assert_eq!(trusted_client_ip(&Headers::new()), None);
}

#[test]
fn sanitize_header_value_removes_crlf() {
    assert_eq!(sanitize_header_value("a\r\nBcc: x@y.z"), "a  Bcc: x@y.z");
}

#[test]
fn client_ip_takes_first_hop_for_logs() {
    let mut h = Headers::new();
    h.insert("x-forwarded-for", " 1.2.3.4 , 10.0.0.1");
    assert_eq!(client_ip(&h), "1.2.3.4");
    let mut h2 = Headers::new();
    h2.insert("x-vercel-forwarded-for", "9.9.9.9");
    assert_eq!(client_ip(&h2), "9.9.9.9");
    assert_eq!(client_ip(&Headers::new()), "-");
}

#[test]
fn trusted_ip_prefers_real_ip_and_skips_blank_last_hop() {
    let mut h = Headers::new();
    h.insert("x-forwarded-for", "1.2.3.4, 10.0.0.1");
    h.insert("x-real-ip", " 5.6.7.8 ");
    assert_eq!(trusted_client_ip(&h).as_deref(), Some("5.6.7.8"));
    let mut h2 = Headers::new();
    h2.insert("x-forwarded-for", "1.2.3.4, ");
    assert_eq!(trusted_client_ip(&h2), None);
}

#[test]
fn required_text_trims_and_counts_characters() {
    assert_eq!(required_text("  标题 ", "标题", 255).unwrap(), "标题");
    let e = required_text("   ", "标题", 255).unwrap_err();
    assert_eq!(e.code, ErrCode::BadRequest);
    assert_eq!(e.msg, "标题不能为空");
    let e = required_text("字字字", "名", 2).unwrap_err();
    assert_eq!(e.msg, "名不能超过 2 字");
    assert!(required_text("字字", "名", 2).is_ok());
}

#[test]
fn optional_text_treats_blank_as_absent() {
    assert_eq!(optional_text(None, "图标", 10).unwrap(), None);
    assert_eq!(optional_text(Some("  "), "图标", 10).unwrap(), None);
    assert_eq!(optional_text(Some(" a "), "图标", 10).unwrap().as_deref(), Some("a"));
    assert_eq!(optional_text(Some("abc"), "图标", 2).unwrap_err().msg, "图标不能超过 2 字");
}

#[test]
fn site_url_must_be_http() {
    assert_eq!(validate_site_url(" https://a.b ").unwrap(), "https://a.b");
    let e = validate_site_url("javascript:alert(1)").unwrap_err();
    assert_eq!(e.msg, "站点地址必须以 http:// 或 https:// 开头");
    assert_eq!(validate_site_url("").unwrap_err().msg, "站点地址不能为空");
}

#[test]
fn email_is_checked_roughly() {
    assert_eq!(validate_email(None).unwrap(), None);
    assert_eq!(validate_email(Some(" a@b.c ")).unwrap().as_deref(), Some("a@b.c"));
    assert_eq!(validate_email(Some("a b@c.d")).unwrap_err().msg, "邮箱不能包含空白或控制字符");
    assert_eq!(validate_email(Some("ab.c")).unwrap_err().msg, "邮箱格式不正确");
    assert_eq!(validate_email(Some("a@bc")).unwrap_err().msg, "邮箱格式不正确");
    assert_eq!(validate_email(Some("@b.c")).unwrap_err().msg, "邮箱格式不正确");
}

#[test]
fn constant_time_eq_is_equality() {
    assert!(constant_time_eq("secret", "secret"));
    assert!(!constant_time_eq("secret", "secreT"));
    assert!(!constant_time_eq("secret", "secret!"));
    assert!(constant_time_eq("", ""));
}

#[test]
fn sanitized_filename_never_has_separators() {
    for name in ["a/b\\c", "..\\..\\x", "_.hidden", "x y z", "/////"] {
        let s = sanitize_filename(name);
        assert!(!s.contains('/') && !s.contains('\\'));
        assert!(!s.starts_with('.') && !s.starts_with('_'));
    }
    assert_eq!(sanitize_filename(&"a".repeat(300)).chars().count(), 120);
}

#[test]
fn spoofed_first_hops_do_not_move_the_ban_address() {
    let mut h1 = Headers::new();
    h1.insert("x-forwarded-for", "1.1.1.1, 9.9.9.9");
    let mut h2 = Headers::new();
    h2.insert("x-forwarded-for", "6.6.6.6,evil, 9.9.9.9");
    h2.insert("x-vercel-forwarded-for", "6.6.6.6");
    assert_eq!(trusted_client_ip(&h1), trusted_client_ip(&h2));
    assert_eq!(trusted_client_ip(&h1).as_deref(), Some("9.9.9.9"));
}
