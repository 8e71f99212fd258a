use vstd::prelude::*;

verus! {

/// A whole row, SMTP password included. Read only when a mail is actually sent.
#[derive(Debug, Clone)]
pub struct MailConfigRow {
    pub id: String,
    pub host: String,
    pub port: i32,
    pub username: String,
    pub password: String,
    pub from_addr: String,
}

/// The admin's view of a row: no password, only whether one is set.
#[derive(Debug, Clone)]
pub struct MailConfigAdminRow {
    pub id: String,
    pub host: String,
    pub port: i32,
    pub username: String,
    pub from_addr: String,
    pub enable: bool,
    pub has_password: bool,
    pub created_at: i64,
}

pub const SELECT_ADMIN: &'static str = "SELECT id, host, port, username, from_addr, enable, \
                            (password <> '') AS has_password, created_at FROM mail_config";

/// What is written of a mail configuration. A `None` password on update keeps the stored one.
pub struct MailFields<'a> {
    pub host: &'a str,
    pub port: i32,
    pub username: &'a str,
    pub password: Option<&'a str>,
    pub from_addr: &'a str,
    pub enable: bool,
}

} // verus!
