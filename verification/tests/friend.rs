use blrs::model::err::{AppError, ErrCode};
use blrs::repo::friend::FriendLinkMailRow;
use blrs::service::friend::{
    ApproveAction, ApproveEvent, ApproveState, RefuseAction, RefuseEvent, RefuseState, approve_step,
    mail_timeout, refuse_message, refuse_step,
};

fn row(status: &str, email: Option<&str>) -> FriendLinkMailRow {
    FriendLinkMailRow {
        site_name: "站".to_string(),
        site_url: "https://s.t".to_string(),
        feedback_status: status.to_string(),
        email: email.map(str::to_string),
    }
}

#[test]
fn approving_commits_before_mailing() {
    let (st, a) = approve_step(ApproveState::Start, ApproveEvent::Loaded(Some(row("Review", Some("a@b.c")))));
    assert!(matches!(a, ApproveAction::MarkPassed));
    let (st, a) = approve_step(st, ApproveEvent::Committed);
    match a {
        ApproveAction::Send(n) => {
            assert_eq!(n.to, "a@b.c");
            assert_eq!(n.subject, "友链申请已通过 - 站");
            assert!(n.body.contains("站点地址: https://s.t\n"));
        },
        _ => panic!("expected a notice"),
    }
    // a failed notice does not undo the decision
    let (_, a) = approve_step(st, ApproveEvent::Mailed(Err(AppError::upstream("smtp: down"))));
    assert!(matches!(a, ApproveAction::Reply(Ok(d)) if !d.notified));
}

#[test]
fn approving_twice_sends_nothing() {
    let (_, a) = approve_step(ApproveState::Start, ApproveEvent::Loaded(Some(row("Pass", Some("a@b.c")))));
    assert!(matches!(a, ApproveAction::Reply(Ok(d)) if !d.notified));
    let (_, a) = approve_step(ApproveState::Start, ApproveEvent::Loaded(None));
    assert!(matches!(a, ApproveAction::Reply(Err(e)) if e.code == ErrCode::NotFound && e.msg == "友链不存在"));
}

#[test]
fn approving_without_address_is_not_notified() {
    let (st, _) = approve_step(ApproveState::Start, ApproveEvent::Loaded(Some(row("Review", None))));
    let (_, a) = approve_step(st, ApproveEvent::Committed);
    assert!(matches!(a, ApproveAction::Reply(Ok(d)) if !d.notified));
}

#[test]
fn refusing_mails_first_and_keeps_the_record_on_failure() {
    let message = refuse_message("  不合适  ").unwrap();
    assert_eq!(message, "不合适");
    let (st, a) = refuse_step(RefuseState::Loading { message }, RefuseEvent::Loaded(Some(row("Review", Some("a@b.c")))));
    match &a {
        RefuseAction::Send(n) => {
            assert_eq!(n.subject, "友链申请未通过 - 站");
            assert!(n.body.contains("说明:\n不合适\n"));
        },
        _ => panic!("expected a notice"),
    }
    let (_, a) = refuse_step(st, RefuseEvent::Mailed(Err(AppError::upstream("smtp: down"))));
    assert!(matches!(a, RefuseAction::Reply(Err(e)) if e.code == ErrCode::Upstream));
}

#[test]
fn refusing_deletes_after_the_notice() {
    let (st, _) = refuse_step(
        RefuseState::Loading { message: "x".to_string() },
        RefuseEvent::Loaded(Some(row("Review", Some("a@b.c")))),
    );
    let (st, a) = refuse_step(st, RefuseEvent::Mailed(Ok(())));
    assert!(matches!(a, RefuseAction::Delete));
    let (_, a) = refuse_step(st, RefuseEvent::Deleted(true));
    assert!(matches!(a, RefuseAction::Reply(Ok(d)) if d.notified));
}

#[test]
fn refusing_without_address_deletes_at_once() {
    let (st, a) = refuse_step(RefuseState::Loading { message: "x".to_string() }, RefuseEvent::Loaded(Some(row("Review", None))));
    assert!(matches!(a, RefuseAction::Delete));
    let (_, a) = refuse_step(st, RefuseEvent::Deleted(false));
    assert!(matches!(a, RefuseAction::Reply(Err(e)) if e.msg == "友链不存在"));
}

#[test]
fn refusal_text_is_checked() {
    assert_eq!(refuse_message("   ").unwrap_err().msg, "拒绝说明不能为空");
    assert_eq!(refuse_message(&"字".repeat(1001)).unwrap_err().msg, "拒绝说明不能超过 1000 字");
    assert!(refuse_message(&"字".repeat(1000)).is_ok());
    assert_eq!(mail_timeout().internal, "发信超时 (5s)");
}
