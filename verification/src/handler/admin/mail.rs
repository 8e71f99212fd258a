//! Admin mail settings: validation, the stored fields and the admin view.
use vstd::prelude::*;
use crate::model::err::{AppError, AppResult, ErrCode, is_client_error};
use crate::model::handler::admin::mail::{MailConfigAdmin, MailConfigInput};
use crate::repo::mail::{MailConfigAdminRow, MailFields};
use crate::text::chars_of;
use crate::util::{opt_str_view, opt_view, required_text, required_text_spec};
use crate::util::time::{fmt_ts, ts_text};

verus! {

/// The admin view of the mail settings: never the password, only whether one is set.
pub fn to_admin(row: &MailConfigAdminRow) -> (m: MailConfigAdmin)
    ensures
        m.id == row.id && m.host == row.host && m.port == row.port && m.username == row.username
            && m.from_addr == row.from_addr && m.enable == row.enable && m.has_password
            == row.has_password,
        m.create_at@ == ts_text(row.created_at as int),
{
    MailConfigAdmin {
        id: row.id.clone(),
        host: row.host.clone(),
        port: row.port,
        username: row.username.clone(),
        from_addr: row.from_addr.clone(),
        enable: row.enable,
        has_password: row.has_password,
        create_at: fmt_ts(row.created_at),
    }
}

/// The checks of mail settings, in order: port in 1..=65535, host, user name, sender.
pub open spec fn mail_input_spec(port: i32, host: Seq<char>, username: Seq<char>, from_addr: Seq<char>) -> Result<(Seq<char>, Seq<char>, Seq<char>), Seq<char>> {
    if !(1 <= port <= 65535) {
        Err("端口必须在 1-65535 之间"@)
    } else {
        match required_text_spec(host, "SMTP 主机"@, 255) {
            Err(m) => Err(m),
            Ok(h) => match required_text_spec(username, "SMTP 用户名"@, 255) {
                Err(m) => Err(m),
                Ok(u) => match required_text_spec(from_addr, "发件人地址"@, 255) {
                    Err(m) => Err(m),
                    Ok(f) => Ok((h, u, f)),
                },
            },
        }
    }
}

/// Checks mail settings; the password and the switch pass as they are.
pub fn normalize(input: MailConfigInput) -> (r: AppResult<MailConfigInput>)
    ensures
        match (r, mail_input_spec(input.port, input.host@, input.username@, input.from_addr@)) {
            (Ok(m), Ok(w)) => (m.host@, m.username@, m.from_addr@) == w && m.port == input.port
                && m.password == input.password && m.enable == input.enable,
            (Err(e), Err(msg)) => is_client_error(e, ErrCode::BadRequest, msg),
            _ => false,
        },
{
    if input.port < 1 || input.port > 65535 {
        return Err(AppError::bad_request("端口必须在 1-65535 之间"));
    }
    let host = required_text(input.host.as_str(), "SMTP 主机", 255)?;
    let username = required_text(input.username.as_str(), "SMTP 用户名", 255)?;
    let from_addr = required_text(input.from_addr.as_str(), "发件人地址", 255)?;
    Ok(MailConfigInput { host, port: input.port, username, password: input.password, from_addr, enable: input.enable })
}

impl MailConfigInput {
    /// The fields to store, with `password` as decided by the caller (`None` on update keeps
    /// the stored one).
    pub fn as_fields<'a>(&'a self, password: Option<&'a str>) -> (f: MailFields<'a>)
        ensures
            f.host@ == self.host@ && f.port == self.port && f.username@ == self.username@
                && f.from_addr@ == self.from_addr@ && f.enable == self.enable && opt_str_view(
                f.password,
            ) == opt_str_view(password),
    {
        MailFields {
            host: self.host.as_str(),
            port: self.port,
            username: self.username.as_str(),
            password,
            from_addr: self.from_addr.as_str(),
            enable: self.enable,
        }
    }
}

/// The password a new configuration must have (blank is refused: a configuration without one
/// could never log in to the SMTP server).
pub fn create_password(input: &MailConfigInput) -> (r: AppResult<&str>)
    ensures
        match r {
            Ok(p) => opt_view(&input.password) == Some(p@) && p@.len() > 0,
            Err(e) => !(input.password matches Some(p) && p@.len() > 0) && is_client_error(
                e,
                ErrCode::BadRequest,
                "新建邮件配置时必须填写 SMTP 密码"@,
            ),
        },
{
    match &input.password {
        Some(p) => {
            if chars_of(p.as_str()).len() > 0 {
                Ok(p.as_str())
            } else {
                Err(AppError::bad_request("新建邮件配置时必须填写 SMTP 密码"))
            }
        },
        None => Err(AppError::bad_request("新建邮件配置时必须填写 SMTP 密码")),
    }
}

/// The password of an update: a blank or absent one keeps the stored password.
pub fn update_password(input: &MailConfigInput) -> (r: Option<&str>)
    ensures
        opt_str_view(r) == (match input.password {
            Some(p) => if p@.len() > 0 {
                Some(p@)
            } else {
                None
            },
            None => None,
        }),
{
    match &input.password {
        Some(p) => {
            if chars_of(p.as_str()).len() > 0 {
                Some(p.as_str())
            } else {
                None
            }
        },
        None => None,
    }
}

} // verus!
