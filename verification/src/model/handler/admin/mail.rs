use vstd::prelude::*;

verus! {

#[derive(Debug, Clone)]
pub struct MailConfigInput {
    pub host: String,
    pub port: i32,
    pub username: String,
    /// On update, blank keeps the stored password.
    pub password: Option<String>,
    pub from_addr: String,
    pub enable: bool,
}

/// Mail settings as the admin side sees them: the SMTP password is never returned, only
/// whether one is set.
#[derive(Debug, Clone)]
pub struct MailConfigAdmin {
    pub id: String,
    pub host: String,
    pub port: i32,
    pub username: String,
    pub from_addr: String,
    pub enable: bool,
    pub has_password: bool,
    /// yyyy-MM-dd HH:mm:ss
    pub create_at: String,
}

} // verus!
