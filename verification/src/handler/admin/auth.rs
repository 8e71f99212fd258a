//! Admin login: the decisions between the password check, failure counting and bans.
use vstd::prelude::*;
use crate::config::LOGIN_MAX_FAILURES;
use crate::model::err::{AppError, ErrCode, is_client_error};
use crate::model::handler::admin::auth::{LoginRes, MeRes};
use crate::service::auth::AdminClaims;
use crate::util::opt_view;
use crate::util::time::{fmt_ts, ts_text};

verus! {

/// What came of the last outside step of a login.
pub enum LoginEvent {
    /// Whether an admin password is set.
    PasswordSet(bool),
    /// Whether the password sent matched.
    Verified(bool),
    /// The failure count after counting this one (`None`: it could not be counted).
    Counted(Option<i64>),
}

/// What to do next.
pub enum LoginAction {
    /// Check the password that was sent.
    Verify,
    /// Count one more failure for this address.
    CountFailure(String),
    /// Ban this address, then refuse the login.
    Ban(String),
    /// Refuse the login.
    Reject,
    /// Issue the token; clear the failure count of the address first when there is one.
    Accept { clear: Option<String> },
}

/// One step of a login, `ip` being the trusted client address (`None` when there is none).
///
/// Without a password set, every login passes (the first login needs none). With one, a wrong
/// password is counted for the address, and the third failure bans it. Only a trusted address
/// takes part in counting and banning: otherwise a forged header could get any address
/// banned.
pub fn login_step(ip: &Option<String>, event: LoginEvent) -> (a: LoginAction)
    ensures
        match event {
            LoginEvent::PasswordSet(false) => a == (LoginAction::Accept { clear: None }),
            LoginEvent::PasswordSet(true) => a is Verify,
            LoginEvent::Verified(true) => a matches LoginAction::Accept { clear } && opt_view(&clear)
                == opt_view(ip),
            LoginEvent::Verified(false) => match ip {
                Some(addr) => a matches LoginAction::CountFailure(x) && x@ == addr@,
                None => a is Reject,
            },
            LoginEvent::Counted(Some(n)) => if n >= LOGIN_MAX_FAILURES && ip is Some {
                a matches LoginAction::Ban(x) && x@ == ip->0@
            } else {
                a is Reject
            },
            LoginEvent::Counted(None) => a is Reject,
        },
        ip is None ==> !(a is CountFailure) && !(a is Ban),
{
    match event {
        LoginEvent::PasswordSet(set) => {
            if set {
                LoginAction::Verify
            } else {
                LoginAction::Accept { clear: None }
            }
        },
        LoginEvent::Verified(ok) => {
            if ok {
                LoginAction::Accept { clear: crate::util::clone_opt(ip) }
            } else {
                match ip {
                    Some(addr) => LoginAction::CountFailure(addr.clone()),
                    None => LoginAction::Reject,
                }
            }
        },
        LoginEvent::Counted(Some(n)) => {
            if n >= LOGIN_MAX_FAILURES {
                match ip {
                    Some(addr) => LoginAction::Ban(addr.clone()),
                    None => LoginAction::Reject,
                }
            } else {
                LoginAction::Reject
            }
        },
        LoginEvent::Counted(None) => LoginAction::Reject,
    }
}

/// The answer to a refused login.
pub fn wrong_password() -> (e: AppError)
    ensures
        is_client_error(e, ErrCode::Unauthorized, "密码错误"@),
{
    AppError::unauthorized("密码错误")
}

/// The answer to a successful login: the token, when it expires, and whether a password is
/// set (when not, the front end leads the admin to set one).
pub fn login_response(token: String, exp: i64, password_set: bool) -> (r: LoginRes)
    ensures
        r.token == token,
        r.expire_at@ == ts_text(exp as int),
        r.password_set == password_set,
{
    LoginRes { token, expire_at: fmt_ts(exp), password_set }
}

/// The answer to `GET /admin/me`: when the current token expires.
pub fn me_response(claims: &AdminClaims) -> (r: MeRes)
    ensures
        r.expire_at@ == ts_text(claims.exp as int),
{
    MeRes { expire_at: fmt_ts(claims.exp) }
}

} // verus!
