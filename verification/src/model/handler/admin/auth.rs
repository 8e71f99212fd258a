use vstd::prelude::*;

verus! {

/// Login input. While no password is set, an empty or absent `pswd` logs in.
#[derive(Debug, Clone)]
pub struct LoginInput {
    pub pswd: Option<String>,
}

#[derive(Debug, Clone)]
pub struct LoginRes {
    pub token: String,
    /// yyyy-MM-dd HH:mm:ss
    pub expire_at: String,
    /// `false` means no password is set yet; the front end should lead to setting one.
    pub password_set: bool,
}

#[derive(Debug, Clone)]
pub struct PasswordInput {
    pub pswd: String,
}

#[derive(Debug, Clone)]
pub struct MeRes {
    pub expire_at: String,
}

} // verus!
