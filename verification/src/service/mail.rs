//! Which SMTP settings a mail goes out with, and what the mails say.
use vstd::prelude::*;
use crate::config::MailEnv;
use crate::model::err::{AppError, AppResult, ErrCode, generic_server_msg, is_error};
use crate::repo::mail::MailConfigRow;
use crate::text::concat;
use crate::util::{header_value_spec, opt_view, sanitize_header_value};

verus! {

/// The settings a mail actually goes out with.
#[derive(Debug, Clone)]
pub struct ResolvedMail {
    pub host: String,
    pub port: u16,
    pub username: String,
    pub password: String,
    pub from: String,
}

pub open spec fn bad_port_detail() -> Seq<char> {
    "mail_config 端口非法"@
}

/// The settings to send with: the enabled stored configuration when there is one (its port
/// must fit in `u16`), else the environment's, which start-up has already checked.
pub fn resolve(enabled: Option<MailConfigRow>, env: &MailEnv) -> (r: AppResult<ResolvedMail>)
    ensures
        match enabled {
            Some(row) => if 0 <= row.port <= u16::MAX {
                r matches Ok(m) && m.host == row.host && m.port == row.port && m.username
                    == row.username && m.password == row.password && m.from == row.from_addr
            } else {
                r matches Err(e) && is_error(e, ErrCode::Internal, generic_server_msg(), bad_port_detail())
            },
            None => r matches Ok(m) && m.host == env.host && m.port == env.port && m.username
                == env.username && m.password == env.password && m.from == env.from,
        },
{
    match enabled {
        Some(row) => {
            if row.port < 0 || row.port > 65535 {
                return Err(AppError::internal("mail_config 端口非法"));
            }
            Ok(
                ResolvedMail {
                    host: row.host,
                    port: row.port as u16,
                    username: row.username,
                    password: row.password,
                    from: row.from_addr,
                },
            )
        },
        None => Ok(
            ResolvedMail {
                host: env.host.clone(),
                port: env.port,
                username: env.username.clone(),
                password: env.password.clone(),
                from: env.from.clone(),
            },
        ),
    }
}

/// Why lettre does not take `text` as a mailbox (the `Display` text of its `AddressError`), or
/// `None` when `text.parse::<lettre::message::Mailbox>()` succeeds.
pub uninterp spec fn mailbox_error(text: Seq<char>) -> Option<Seq<char>>;

/// `text.parse::<lettre::message::Mailbox>()`, keeping only whether it failed and why.
#[verifier::external_body]
fn parse_mailbox(text: &str) -> (r: Option<String>)
    ensures
        opt_view(&r) == mailbox_error(text@),
{
    match text.parse::<lettre::message::Mailbox>() {
        Ok(_) => None,
        Err(e) => Some(e.to_string()),
    }
}

/// A mail ready for the transport: addresses checked, subject cleaned.
#[derive(Debug, Clone)]
pub struct PreparedMail {
    pub from: String,
    pub to: String,
    pub subject: String,
    pub body: String,
    pub host: String,
    pub port: u16,
    pub username: String,
    pub password: String,
    /// Port 465 speaks TLS from the first byte; every other port upgrades with STARTTLS.
    pub implicit_tls: bool,
}

pub open spec fn bad_from_detail(reason: Seq<char>) -> Seq<char> {
    "mail_from 不是合法地址: "@ + reason
}

/// The recipient's own address stays out of the error: the detail goes to the log.
pub open spec fn bad_to_detail() -> Seq<char> {
    "库里的收件地址不是合法邮箱, 无法投递"@
}

/// Checks both addresses and builds the mail. The subject loses CR and LF, which could
/// otherwise inject headers.
pub fn prepare(cfg: ResolvedMail, to: &str, subject: &str, body: String) -> (r: AppResult<PreparedMail>)
    ensures
        match mailbox_error(cfg.from@) {
            Some(reason) => r matches Err(e) && is_error(
                e,
                ErrCode::Internal,
                generic_server_msg(),
                bad_from_detail(reason),
            ),
            None => match mailbox_error(to@) {
                Some(_) => r matches Err(e) && is_error(
                    e,
                    ErrCode::Internal,
                    generic_server_msg(),
                    bad_to_detail(),
                ),
                None => r matches Ok(m) && m.from == cfg.from && m.to@ == to@ && m.subject@
                    == header_value_spec(subject@) && m.body == body && m.host == cfg.host && m.port
                    == cfg.port && m.username == cfg.username && m.password == cfg.password
                    && m.implicit_tls == (cfg.port == 465),
            },
        },
{
    match parse_mailbox(cfg.from.as_str()) {
        Some(reason) => {
            return Err(AppError::internal(concat("mail_from 不是合法地址: ", reason.as_str()).as_str()));
        },
        None => {},
    }
    match parse_mailbox(to) {
        Some(_) => {
            return Err(AppError::internal("库里的收件地址不是合法邮箱, 无法投递"));
        },
        None => {},
    }
    let implicit_tls = cfg.port == 465;
    Ok(
        PreparedMail {
            from: cfg.from,
            to: to.to_owned(),
            subject: sanitize_header_value(subject),
            body,
            host: cfg.host,
            port: cfg.port,
            username: cfg.username,
            password: cfg.password,
            implicit_tls,
        },
    )
}

pub open spec fn approved_subject(site_name: Seq<char>) -> Seq<char> {
    "友链申请已通过 - "@ + site_name
}

pub open spec fn approved_body(site_name: Seq<char>, site_url: Seq<char>) -> Seq<char> {
    "你好,\n\n你提交的友链申请已经通过审核, 现在可以在站点上看到了。\n\n站点名称: "@ + site_name
        + "\n站点地址: "@ + site_url + "\n\n感谢你的支持。\n"@
}

pub open spec fn refused_subject(site_name: Seq<char>) -> Seq<char> {
    "友链申请未通过 - "@ + site_name
}

pub open spec fn refused_body(message: Seq<char>) -> Seq<char> {
    "你好,\n\n你提交的友链申请未能通过审核。\n\n说明:\n"@ + message + "\n\n感谢你的关注。\n"@
}

/// Subject and body of the notice that a friend link was accepted.
pub fn friend_approved_mail(site_name: &str, site_url: &str) -> (r: (String, String))
    ensures
        r.0@ == approved_subject(site_name@),
        r.1@ == approved_body(site_name@, site_url@),
{
    let subject = concat("友链申请已通过 - ", site_name);
    let a = concat("你好,\n\n你提交的友链申请已经通过审核, 现在可以在站点上看到了。\n\n站点名称: ", site_name);
    let b = concat(a.as_str(), "\n站点地址: ");
    let c = concat(b.as_str(), site_url);
    let body = concat(c.as_str(), "\n\n感谢你的支持。\n");
    (subject, body)
}

/// Subject and body of the notice that a friend link was refused; the admin's text goes into
/// the body as it is.
pub fn friend_refused_mail(site_name: &str, message: &str) -> (r: (String, String))
    ensures
        r.0@ == refused_subject(site_name@),
        r.1@ == refused_body(message@),
{
    let subject = concat("友链申请未通过 - ", site_name);
    let a = concat("你好,\n\n你提交的友链申请未能通过审核。\n\n说明:\n", message);
    let body = concat(a.as_str(), "\n\n感谢你的关注。\n");
    (subject, body)
}

} // verus!
