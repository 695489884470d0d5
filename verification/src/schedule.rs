use vstd::prelude::*;

use crate::errors::ErrorCode;
use crate::ticket::Ticket;

verus! {

/// Seconds in a day: the schedule is stated in days and measured in seconds.
pub const SECONDS_PER_DAY: u64 = 86400;

/// The instant the cliff passes, meaningful only when `cliff > 0`.
pub open spec fn cliff_deadline(t: Ticket) -> int {
    t.created_at + t.cliff * 86400
}

/// Whether releases are permitted at `now`: immediately when there is no
/// cliff, otherwise only strictly after the cliff deadline.
pub open spec fn spec_has_cliffed(t: Ticket, now: u64) -> bool {
    t.cliff == 0 || now > cliff_deadline(t)
}

/// The vesting horizon in seconds.
pub open spec fn horizon_seconds(t: Ticket) -> int {
    t.vesting * 86400
}

/// The linear release: the elapsed fraction of the horizon, applied to the
/// ticket's current (remaining) balance and rounded down. Recomputing
/// against the shrinking balance after each claim is deliberate: successive
/// partial claims converge toward, but need not exactly reach, full release
/// at the nominal horizon.
pub open spec fn spec_unlocked(t: Ticket, now: u64) -> int {
    (now - t.created_at) * t.balance / horizon_seconds(t)
}

/// When the cliff test itself cannot be computed in 64 bits.
pub open spec fn cliff_check_faults(t: Ticket) -> bool {
    t.cliff != 0 && (t.cliff * 86400 > u64::MAX || t.created_at + t.cliff * 86400 > u64::MAX)
}

/// When the linear release cannot be computed: a clock before creation, a
/// zero horizon (a ticket that bypassed creation-time validation), or a
/// 64-bit overflow on the way.
pub open spec fn release_faults(t: Ticket, now: u64) -> bool {
    ||| now < t.created_at
    ||| t.vesting * 86400 > u64::MAX
    ||| (now - t.created_at) * t.balance > u64::MAX
    ||| t.vesting == 0
}

/// What `available` returns: zero before the cliff, the linear release
/// after it, and a fault wherever the arithmetic leaves 64 bits.
pub open spec fn available_result(t: Ticket, now: u64) -> Result<u64, ErrorCode> {
    if cliff_check_faults(t) {
        Err(ErrorCode::ArithmeticFault)
    } else if !spec_has_cliffed(t, now) {
        Ok(0u64)
    } else if release_faults(t, now) {
        Err(ErrorCode::ArithmeticFault)
    } else {
        Ok(spec_unlocked(t, now) as u64)
    }
}

/// Whether the cliff has passed at `now`. A ticket with no cliff counts as
/// cliffed from the start; otherwise the deadline is computed with checked
/// arithmetic and any overflow is a fault, never a silent wrap.
pub fn has_cliffed(ticket: &Ticket, now: u64) -> (r: Result<bool, ErrorCode>)
    ensures
        cliff_check_faults(*ticket) ==> r == Err::<bool, ErrorCode>(ErrorCode::ArithmeticFault),
        !cliff_check_faults(*ticket) ==> r == Ok::<bool, ErrorCode>(
            spec_has_cliffed(*ticket, now),
        ),
{
    if ticket.cliff == 0 {
        return Ok(true);
    }
    let cliff_seconds = match ticket.cliff.checked_mul(SECONDS_PER_DAY) {
        Some(s) => s,
        None => {
            return Err(ErrorCode::ArithmeticFault);
        },
    };
    let deadline = match ticket.created_at.checked_add(cliff_seconds) {
        Some(d) => d,
        None => {
            return Err(ErrorCode::ArithmeticFault);
        },
    };
    Ok(now > deadline)
}

/// The linear release at `now`, for a ticket whose cliff has passed. All
/// arithmetic is checked; overflow, a clock before creation and a zero
/// horizon are faults.
pub fn unlocked(ticket: &Ticket, now: u64) -> (r: Result<u64, ErrorCode>)
    ensures
        release_faults(*ticket, now) ==> r == Err::<u64, ErrorCode>(ErrorCode::ArithmeticFault),
        !release_faults(*ticket, now) ==> r == Ok::<u64, ErrorCode>(
            spec_unlocked(*ticket, now) as u64,
        ),
{
    let timelapsed = match now.checked_sub(ticket.created_at) {
        Some(e) => e,
        None => {
            return Err(ErrorCode::ArithmeticFault);
        },
    };
    let vesting_in_seconds = match ticket.vesting.checked_mul(SECONDS_PER_DAY) {
        Some(h) => h,
        None => {
            return Err(ErrorCode::ArithmeticFault);
        },
    };
    let released = match timelapsed.checked_mul(ticket.balance) {
        Some(p) => p,
        None => {
            return Err(ErrorCode::ArithmeticFault);
        },
    };
    match released.checked_div(vesting_in_seconds) {
        Some(a) => Ok(a),
        None => Err(ErrorCode::ArithmeticFault),
    }
}

/// How much of the balance may legally be withdrawn at `now`: nothing
/// before the cliff, the linear release after it.
pub fn available(ticket: &Ticket, now: u64) -> (r: Result<u64, ErrorCode>)
    ensures
        r == available_result(*ticket, now),
{
    match has_cliffed(ticket, now)? {
        true => unlocked(ticket, now),
        false => Ok(0),
    }
}

} // verus!
