//! Scheduling decisions for the per-repository polling loop: when a
//! repository is due for a check, and what one loop iteration should do.
//! The loop itself — thread, sleep, running flag — lives with the caller;
//! only the decisions are here.

use vstd::prelude::*;

verus! {

/// A repository is due when it has never been checked, or when the polling
/// interval has fully elapsed since the last check (all times in seconds).
pub open spec fn spec_is_due(last_checked: Option<u64>, interval: u64, now: u64) -> bool {
    match last_checked {
        None => true,
        Some(t) => t + interval < now,
    }
}

/// Decide whether a repository is due for a check.
pub fn is_due(last_checked: Option<u64>, interval: u64, now: u64) -> (r: bool)
    ensures
        r == spec_is_due(last_checked, interval, now),
{
    match last_checked {
        None => true,
        Some(t) => {
            if t > u64::MAX - interval {
                false
            } else {
                t + interval < now
            }
        }
    }
}

/// What one iteration of the polling loop does next.
#[derive(Clone, Copy, PartialEq, Eq, Structural, Debug)]
pub enum TickAction {
    /// The running flag is cleared: exit the loop without enqueuing.
    Stop,
    /// The repository is due: enqueue it for a sync, then idle briefly.
    Enqueue,
    /// Not due yet: idle briefly and re-check.
    Idle,
}

/// Decide one iteration of the polling loop. The running flag is consulted
/// first, so nothing is enqueued once it is cleared; otherwise the repository
/// is enqueued exactly when it is due.
pub fn tick(running: bool, last_checked: Option<u64>, interval: u64, now: u64) -> (a: TickAction)
    ensures
        a == TickAction::Stop <==> !running,
        a == TickAction::Enqueue <==> running && spec_is_due(last_checked, interval, now),
        a == TickAction::Idle <==> running && !spec_is_due(last_checked, interval, now),
{
    if !running {
        TickAction::Stop
    } else if is_due(last_checked, interval, now) {
        TickAction::Enqueue
    } else {
        TickAction::Idle
    }
}

/// Due-check law: with interval `i`, a last check `eps` seconds more than
/// `i` ago is due; one `eps` seconds less than `i` ago is not; and a
/// repository never checked is always due.
pub proof fn lemma_due_check(interval: u64, now: u64, eps: u64)
    requires
        1 <= eps,
        interval + eps <= now,
        now - interval + eps <= u64::MAX,
    ensures
        spec_is_due(Some((now - interval - eps) as u64), interval, now),
        !spec_is_due(Some((now - interval + eps) as u64), interval, now),
        spec_is_due(None, interval, now),
{
}

} // verus!
