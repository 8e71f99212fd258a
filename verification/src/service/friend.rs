//! Accepting and refusing friend links: the order of committing, mailing and deleting.
//!
//! The store and the mail transport live outside the library, so each flow is a step function:
//! the caller performs the action it gets back and hands in what came of it.
use vstd::prelude::*;
use crate::model::LinkStatus;
use crate::model::err::{AppError, AppResult, ErrCode, generic_upstream_msg, is_client_error, is_error};
use crate::repo::friend::FriendLinkMailRow;
use crate::service::mail::{
    approved_body, approved_subject, friend_approved_mail, friend_refused_mail, refused_body,
    refused_subject,
};
use crate::text::{chars_of, same_chars};
use crate::util::{outcome_is, required_text, required_text_spec, string_view};

verus! {

/// Upper bound of the refusal text, in characters.
pub const MAX_REFUSE_MESSAGE_LEN: usize = 1000;

/// Seconds a notice may take before it counts as failed.
pub const MAIL_TIMEOUT_SECS: u64 = 5;

#[derive(Debug, Clone, Copy)]
pub struct Decision {
    /// Whether the notice mail went out.
    pub notified: bool,
}

pub open spec fn not_found_msg() -> Seq<char> {
    "友链不存在"@
}

/// The error of a notice that took longer than the timeout.
pub fn mail_timeout() -> (e: AppError)
    ensures
        is_error(e, ErrCode::Upstream, generic_upstream_msg(), "发信超时 (5s)"@),
{
    AppError::upstream("发信超时 (5s)")
}

/// A notice to send.
pub struct Notice {
    pub to: String,
    pub subject: String,
    pub body: String,
}

// ---------------------------------------------------------------------------
// Accepting
// ---------------------------------------------------------------------------

pub enum ApproveState {
    /// The row has not been read yet.
    Start,
    /// The row was read (under a row lock) and is being marked as accepted.
    Marking { row: FriendLinkMailRow },
    /// The decision is committed and the notice is on its way.
    Notifying,
}

pub enum ApproveEvent {
    /// What the locked read found.
    Loaded(Option<FriendLinkMailRow>),
    /// The new status is committed.
    Committed,
    /// What came of sending the notice.
    Mailed(AppResult<()>),
}

pub enum ApproveAction {
    /// Answer with this; an open transaction is dropped (rolled back).
    Reply(AppResult<Decision>),
    /// Set the status to `Pass` and commit.
    MarkPassed,
    /// Send this notice.
    Send(Notice),
}

pub open spec fn approve_fits(state: ApproveState, event: ApproveEvent) -> bool {
    match state {
        ApproveState::Start => event is Loaded,
        ApproveState::Marking { .. } => event is Committed,
        ApproveState::Notifying => event is Mailed,
    }
}

pub open spec fn replies_decision(a: ApproveAction, notified: bool) -> bool {
    a matches ApproveAction::Reply(Ok(d)) && d.notified == notified
}

/// One step of accepting a friend link.
///
/// The decision is committed before any mail is sent, so a notice that fails cannot undo it:
/// the answer is still a success, with `notified` false. A link that is already accepted is
/// left alone and gets no second notice.
pub fn approve_step(state: ApproveState, event: ApproveEvent) -> (r: (ApproveState, ApproveAction))
    requires
        approve_fits(state, event),
    ensures
        match (state, event) {
            (ApproveState::Start, ApproveEvent::Loaded(None)) => r.1 matches ApproveAction::Reply(Err(e))
                && is_client_error(e, ErrCode::NotFound, not_found_msg()),
            (ApproveState::Start, ApproveEvent::Loaded(Some(row))) => if row.feedback_status@ == "Pass"@ {
                replies_decision(r.1, false)
            } else {
                r.0 == (ApproveState::Marking { row }) && r.1 is MarkPassed
            },
            (ApproveState::Marking { row }, ApproveEvent::Committed) => match row.email {
                None => replies_decision(r.1, false),
                Some(to) => (r.1 matches ApproveAction::Send(n) && r.0 is Notifying && n.to == to
                    && n.subject@ == approved_subject(row.site_name@) && n.body@ == approved_body(
                    row.site_name@,
                    row.site_url@,
                )),
            },
            (ApproveState::Notifying, ApproveEvent::Mailed(sent)) => replies_decision(r.1, sent is Ok),
            _ => false,
        },
{
    match state {
        ApproveState::Start => match event {
            ApproveEvent::Loaded(None) => (ApproveState::Start, ApproveAction::Reply(Err(AppError::not_found("友链不存在")))),
            ApproveEvent::Loaded(Some(row)) => {
                let pass = LinkStatus::Pass.as_str();
                if same_chars(&chars_of(row.feedback_status.as_str()), &chars_of(pass)) {
                    (ApproveState::Start, ApproveAction::Reply(Ok(Decision { notified: false })))
                } else {
                    (ApproveState::Marking { row }, ApproveAction::MarkPassed)
                }
            },
            _ => (ApproveState::Start, ApproveAction::MarkPassed),
        },
        ApproveState::Marking { row } => match row.email {
            None => (ApproveState::Notifying, ApproveAction::Reply(Ok(Decision { notified: false }))),
            Some(to) => {
                let (subject, body) = friend_approved_mail(row.site_name.as_str(), row.site_url.as_str());
                (ApproveState::Notifying, ApproveAction::Send(Notice { to, subject, body }))
            },
        },
        ApproveState::Notifying => match event {
            ApproveEvent::Mailed(sent) => {
                let notified = sent.is_ok();
                (ApproveState::Notifying, ApproveAction::Reply(Ok(Decision { notified })))
            },
            _ => (ApproveState::Notifying, ApproveAction::MarkPassed),
        },
    }
}

// ---------------------------------------------------------------------------
// Refusing
// ---------------------------------------------------------------------------

pub open spec fn refuse_message_spec(message: Seq<char>) -> Result<Seq<char>, Seq<char>> {
    required_text_spec(message, "拒绝说明"@, MAX_REFUSE_MESSAGE_LEN as nat)
}

/// Checks the admin's refusal text: trimmed, not empty, at most 1000 characters.
pub fn refuse_message(message: &str) -> (r: AppResult<String>)
    ensures
        outcome_is(r, refuse_message_spec(message@), string_view()),
{
    required_text(message, "拒绝说明", MAX_REFUSE_MESSAGE_LEN)
}

pub enum RefuseState {
    /// The row is being read; `message` is the checked refusal text.
    Loading { message: String },
    /// The notice is on its way; the record is untouched.
    Mailing,
    /// The record is being deleted.
    Deleting { notified: bool },
}

pub enum RefuseEvent {
    /// What the read found.
    Loaded(Option<FriendLinkMailRow>),
    /// What came of sending the notice.
    Mailed(AppResult<()>),
    /// Whether the delete removed a record.
    Deleted(bool),
}

pub enum RefuseAction {
    Reply(AppResult<Decision>),
    Send(Notice),
    /// Delete the record.
    Delete,
}

pub open spec fn refuse_fits(state: RefuseState, event: RefuseEvent) -> bool {
    match state {
        RefuseState::Loading { .. } => event is Loaded,
        RefuseState::Mailing => event is Mailed,
        RefuseState::Deleting { .. } => event is Deleted,
    }
}

/// One step of refusing a friend link.
///
/// The order is the reverse of accepting: the notice goes out first and the record is deleted
/// only after it went out. A notice that fails is answered with its error and the record stays,
/// so the admin can fix the mail settings and try again. A link without an address cannot be
/// notified and is deleted at once.
pub fn refuse_step(state: RefuseState, event: RefuseEvent) -> (r: (RefuseState, RefuseAction))
    requires
        refuse_fits(state, event),
    ensures
        r.1 is Delete ==> ((event matches RefuseEvent::Mailed(Ok(_))) || (event matches RefuseEvent::Loaded(
            Some(row),
        ) && row.email is None)),
        match (state, event) {
            (RefuseState::Loading { .. }, RefuseEvent::Loaded(None)) => r.1 matches RefuseAction::Reply(
                Err(e),
            ) && is_client_error(e, ErrCode::NotFound, not_found_msg()),
            (RefuseState::Loading { message }, RefuseEvent::Loaded(Some(row))) => match row.email {
                None => r.0 == (RefuseState::Deleting { notified: false }) && r.1 is Delete,
                Some(to) => (r.1 matches RefuseAction::Send(n) && r.0 is Mailing && n.to == to
                    && n.subject@ == refused_subject(row.site_name@) && n.body@ == refused_body(
                    message@,
                )),
            },
            (RefuseState::Mailing, RefuseEvent::Mailed(Err(e))) => r.1 == RefuseAction::Reply(
                Err(e),
            ),
            (RefuseState::Mailing, RefuseEvent::Mailed(Ok(_))) => r.0 == (RefuseState::Deleting {
                notified: true,
            }) && r.1 is Delete,
            (RefuseState::Deleting { notified }, RefuseEvent::Deleted(removed)) => if removed {
                r.1 matches RefuseAction::Reply(Ok(d)) && d.notified == notified
            } else {
                r.1 matches RefuseAction::Reply(Err(e)) && is_client_error(
                    e,
                    ErrCode::NotFound,
                    not_found_msg(),
                )
            },
            _ => false,
        },
{
    match state {
        RefuseState::Loading { message } => match event {
            RefuseEvent::Loaded(None) => (RefuseState::Mailing, RefuseAction::Reply(Err(AppError::not_found("友链不存在")))),
            RefuseEvent::Loaded(Some(row)) => match row.email {
                None => (RefuseState::Deleting { notified: false }, RefuseAction::Delete),
                Some(to) => {
                    let (subject, body) = friend_refused_mail(row.site_name.as_str(), message.as_str());
                    (RefuseState::Mailing, RefuseAction::Send(Notice { to, subject, body }))
                },
            },
            _ => (RefuseState::Mailing, RefuseAction::Reply(Ok(Decision { notified: false }))),
        },
        RefuseState::Mailing => match event {
            RefuseEvent::Mailed(Err(e)) => (RefuseState::Mailing, RefuseAction::Reply(Err(e))),
            RefuseEvent::Mailed(Ok(_)) => (RefuseState::Deleting { notified: true }, RefuseAction::Delete),
            _ => (RefuseState::Mailing, RefuseAction::Reply(Ok(Decision { notified: false }))),
        },
        RefuseState::Deleting { notified } => match event {
            RefuseEvent::Deleted(removed) => {
                if removed {
                    (RefuseState::Deleting { notified }, RefuseAction::Reply(Ok(Decision { notified })))
                } else {
                    (RefuseState::Deleting { notified }, RefuseAction::Reply(Err(AppError::not_found("友链不存在"))))
                }
            },
            _ => (RefuseState::Mailing, RefuseAction::Reply(Ok(Decision { notified: false }))),
        },
    }
}

} // verus!
