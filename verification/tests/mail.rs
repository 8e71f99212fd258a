use blrs::config::MailEnv;
use blrs::model::err::ErrCode;
use blrs::repo::mail::MailConfigRow;
use blrs::service::mail::{ResolvedMail, friend_approved_mail, friend_refused_mail, prepare, resolve};

fn env() -> MailEnv {
    MailEnv {
        host: "env.host".to_string(),
        port: 587,
        username: "u".to_string(),
        password: "p".to_string(),
        from: "from@x.y".to_string(),
    }
}

fn stored(port: i32) -> MailConfigRow {
    MailConfigRow {
        id: "1".to_string(),
        host: "db.host".to_string(),
        port,
        username: "du".to_string(),
        password: "dp".to_string(),
        from_addr: "db@x.y".to_string(),
    }
}

#[test]
fn stored_settings_win_over_the_environment() {
    let m = resolve(Some(stored(465)), &env()).unwrap();
    assert_eq!((m.host.as_str(), m.port, m.from.as_str()), ("db.host", 465, "db@x.y"));
    let m = resolve(None, &env()).unwrap();
    assert_eq!((m.host.as_str(), m.port), ("env.host", 587));
    let e = resolve(Some(stored(70000)), &env()).unwrap_err();
    assert_eq!(e.code, ErrCode::Internal);
    assert_eq!(e.internal, "mail_config 端口非法");
}

fn cfg(from: &str, port: u16) -> ResolvedMail {
    ResolvedMail {
        host: "h".to_string(),
        port,
        username: "u".to_string(),
        password: "p".to_string(),
        from: from.to_string(),
    }
}

#[test]
fn addresses_are_checked_and_subject_cleaned() {
    let m = prepare(cfg("站长 <a@b.c>", 465), "x@y.z", "hi\r\nBcc: e@f.g", "body".to_string()).unwrap();
    assert_eq!(m.subject, "hi  Bcc: e@f.g");
    assert!(m.implicit_tls);
    let m = prepare(cfg("a@b.c", 587), "x@y.z", "s", String::new()).unwrap();
    assert!(!m.implicit_tls);
    let e = prepare(cfg("not an address", 587), "x@y.z", "s", String::new()).unwrap_err();
    assert!(e.internal.starts_with("mail_from 不是合法地址: "));
    let e = prepare(cfg("a@b.c", 587), "broken", "s", String::new()).unwrap_err();
    assert_eq!(e.internal, "库里的收件地址不是合法邮箱, 无法投递");
}

#[test]
fn notice_texts() {
    let (s, b) = friend_approved_mail("A", "https://a");
    assert_eq!(s, "友链申请已通过 - A");
    assert_eq!(
        b,
        "你好,\n\n你提交的友链申请已经通过审核, 现在可以在站点上看到了。\n\n站点名称: A\n站点地址: https://a\n\n感谢你的支持。\n"
    );
    let (s, b) = friend_refused_mail("A", "no");
    assert_eq!(s, "友链申请未通过 - A");
    assert_eq!(b, "你好,\n\n你提交的友链申请未能通过审核。\n\n说明:\nno\n\n感谢你的关注。\n");
}
