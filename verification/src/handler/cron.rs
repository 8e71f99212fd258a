//! The scheduled clean-up of old view records.
use vstd::prelude::*;
use crate::config::VIEW_RETENTION_DAYS;
use crate::util::time::now_secs;

verus! {

#[derive(Debug)]
pub struct CleanupRes {
    /// How many records were deleted.
    pub deleted: u64,
    /// Records older than this Unix second were deleted.
    pub before: i64,
}

/// The cut-off for a clock reading `now`: view records older than this Unix second are
/// past the retention period.
pub open spec fn cutoff_spec(now: int) -> int {
    now - VIEW_RETENTION_DAYS * 86400
}

/// The cut-off of the clean-up for the clock reading `now`: the retention period before it.
pub fn cutoff_from(now: i64) -> (before: i64)
    requires
        i64::MIN + VIEW_RETENTION_DAYS * 86400 <= now,
    ensures
        before == cutoff_spec(now as int),
{
    now - VIEW_RETENTION_DAYS * 86400
}

/// The cut-off of the clean-up: the retention period before the current second. Which second
/// that is depends on the clock; it is the cut-off of some clock reading in `0..2^43`.
pub fn cleanup_before() -> (before: i64)
    ensures
        exists|now: int| 0 <= now < 0x800_0000_0000 && before == #[trigger] cutoff_spec(now),
{
    let now = now_secs();
    let before = cutoff_from(now);
    assert(before == cutoff_spec(now as int));
    before
}

} // verus!
