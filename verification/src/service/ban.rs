//! Address bans after repeated failed logins.
use vstd::prelude::*;
use crate::text::concat;

verus! {

pub const BAN_PREFIX: &'static str = "blrs:ban:";

pub const FAIL_PREFIX: &'static str = "blrs:login_fail:";

/// Cache key that marks `ip` as banned.
pub fn ban_key(ip: &str) -> (k: String)
    ensures
        k@ == BAN_PREFIX@ + ip@,
{
    concat(BAN_PREFIX, ip)
}

/// Cache key of the failed-login counter of `ip`. It has no expiry: a window would let an
/// attacker stay under the limit forever by going slowly; only a successful login clears it.
pub fn fail_key(ip: &str) -> (k: String)
    ensures
        k@ == FAIL_PREFIX@ + ip@,
{
    concat(FAIL_PREFIX, ip)
}

/// What the cache answered to a counting command (`EXISTS` or `INCR`).
pub enum CountReply {
    /// There is no cache connection.
    Unavailable,
    /// The command answered this number.
    Count(i64),
    /// The command failed.
    Failed,
}

/// Whether the address is banned, from the answer to `EXISTS blrs:ban:<ip>`.
///
/// A missing or failing cache lets the request through: a cache fault must never lock the
/// admin out.
pub fn is_banned_by(reply: CountReply) -> (banned: bool)
    ensures
        banned == (reply matches CountReply::Count(n) && n > 0),
{
    match reply {
        CountReply::Count(n) => n > 0,
        _ => false,
    }
}

/// The failure count after `INCR blrs:login_fail:<ip>`; `None` when it could not be counted,
/// and then the caller lets the failure pass uncounted.
pub fn failure_count(reply: CountReply) -> (count: Option<i64>)
    ensures
        count == (match reply {
            CountReply::Count(n) => Some(n),
            _ => None::<i64>,
        }),
{
    match reply {
        CountReply::Count(n) => Some(n),
        _ => None,
    }
}

} // verus!
