//! `NSTimer`: when a timer is due, and what firing it does. Times are in
//! nanoseconds on a monotonic clock that the caller reads; sending the
//! timer's message is left to the caller.
use vstd::prelude::*;

verus! {

/// A timer's state.
pub struct NSTimerHostObject {
    /// The firing interval, in nanoseconds. An interval that is not a
    /// positive number of seconds is replaced by one second when the timer
    /// is created.
    pub interval_ns: u64,
    /// Receiver of the timer's message.
    pub target: u32,
    /// Selector of the timer's message.
    pub selector: u32,
    pub user_info: u32,
    pub repeats: bool,
    /// When the timer fires next; `None` while it is not scheduled or after
    /// it was invalidated.
    pub due_by: Option<u64>,
    /// Set while the timer's message is being sent, so that re-entering the
    /// run loop from inside the callback does not fire it again.
    pub is_running_callback: bool,
    /// The run loop the timer is scheduled in (weak), or nil.
    pub run_loop: u32,
}

/// `a / b` rounded up.
pub open spec fn ceil_div(a: int, b: int) -> int {
    (a + b - 1) / b
}

/// Intervals to advance a deadline `due` at time `now`: enough for it to
/// pass `now`, and at least one.
pub open spec fn intervals_missed(due: u64, now: u64, interval: u64) -> int {
    if now <= due {
        1
    } else {
        ceil_div(now - due, interval as int)
    }
}

/// The deadline after `due` for a repeating event of period `interval`
/// that is handled at time `now`: whole periods are added until it is
/// later than `now`, or one period if `now` is not past `due`; missed
/// periods are skipped rather than caught up with.
pub open spec fn next_deadline(due: u64, now: u64, interval: u64) -> int {
    due + intervals_missed(due, now, interval) * interval
}

/// Computes [next_deadline].
pub fn advance_deadline(due: u64, now: u64, interval: u64) -> (next: u64)
    requires
        interval > 0,
        next_deadline(due, now, interval) <= u64::MAX,
    ensures
        next == next_deadline(due, now, interval),
{
    let advance: u64 = if now <= due {
        1
    } else {
        let overdue = now - due;
        (overdue - 1) / interval + 1
    };
    proof {
        if now > due {
            let o = (now - due) as int;
            let i = interval as int;
            assert((o - 1) / i + 1 == (o + i - 1) / i) by {
                vstd::arithmetic::div_mod::lemma_fundamental_div_mod(o - 1, i);
                vstd::arithmetic::div_mod::lemma_fundamental_div_mod(o + i - 1, i);
                vstd::arithmetic::div_mod::lemma_div_plus_one(o - 1, i);
            }
        }
        lemma_intervals_missed_positive(due, now, interval);
        assert(advance * interval <= u64::MAX - due);
        assert(advance * interval == intervals_missed(due, now, interval) * interval);
    }
    due + advance * interval
}

proof fn lemma_intervals_missed_positive(due: u64, now: u64, interval: u64)
    requires
        interval > 0,
    ensures
        intervals_missed(due, now, interval) >= 1,
{
    if now > due {
        let o = (now - due) as int;
        let i = interval as int;
        vstd::arithmetic::div_mod::lemma_fundamental_div_mod(o + i - 1, i);
        assert((o + i - 1) / i >= 1) by (nonlinear_arith)
            requires
                o >= 1,
                i >= 1,
                o + i - 1 == i * ((o + i - 1) / i) + (o + i - 1) % i,
                0 <= (o + i - 1) % i < i,
        ;
    }
}

/// A repeating deadline moves forward by a whole, positive number of
/// periods; it lands no earlier than `now`; and it skips no period that
/// would still have been after `now` (it is the first such deadline, or
/// just one period on).
pub proof fn law_next_deadline(due: u64, now: u64, interval: u64)
    requires
        interval > 0,
    ensures
        next_deadline(due, now, interval) > due,
        next_deadline(due, now, interval) >= now,
        (next_deadline(due, now, interval) - due) % (interval as int) == 0,
        next_deadline(due, now, interval) == due + interval || next_deadline(due, now, interval) - interval < now,
{
    lemma_intervals_missed_positive(due, now, interval);
    let a = intervals_missed(due, now, interval);
    let i = interval as int;
    vstd::arithmetic::mul::lemma_mul_is_commutative(a, i);
    vstd::arithmetic::div_mod::lemma_mod_multiples_basic(a, i);
    assert(a * i >= i) by (nonlinear_arith)
        requires
            a >= 1,
            i >= 1,
    ;
    if now > due {
        let o = (now - due) as int;
        vstd::arithmetic::div_mod::lemma_fundamental_div_mod(o + i - 1, i);
        assert(a * i >= o && (a - 1) * i < o) by (nonlinear_arith)
            requires
                a == (o + i - 1) / i,
                o + i - 1 == i * ((o + i - 1) / i) + (o + i - 1) % i,
                0 <= (o + i - 1) % i < i,
        ;
        assert((a - 1) * i == a * i - i) by (nonlinear_arith);
    }
}

/// What firing a timer asks of the caller.
#[derive(Copy, Clone, Debug, PartialEq, Eq, Structural)]
pub enum FireAction {
    /// Nothing: the timer is invalid, or its callback is already running.
    Skip,
    /// Send `selector` to `target` with the timer as argument, then call
    /// [finish_callback]. A timer that does not repeat is first removed from
    /// its run loop.
    Fire { target: u32, selector: u32, remove_from_run_loop: bool },
}

/// Schedules the timer in `run_loop` at time `now`: a timer that is not
/// scheduled yet becomes due one interval from now.
pub fn schedule(timer: &mut NSTimerHostObject, run_loop: u32, now: u64)
    requires
        old(timer).due_by is None ==> now + old(timer).interval_ns <= u64::MAX,
    ensures
        final(timer).due_by == match old(timer).due_by {
            Some(d) => Some(d),
            None => Some((now + old(timer).interval_ns) as u64),
        },
        final(timer).run_loop == run_loop,
        final(timer).interval_ns == old(timer).interval_ns,
        final(timer).target == old(timer).target,
        final(timer).selector == old(timer).selector,
        final(timer).user_info == old(timer).user_info,
        final(timer).repeats == old(timer).repeats,
        final(timer).is_running_callback == old(timer).is_running_callback,
{
    if timer.due_by.is_none() {
        timer.due_by = Some(now + timer.interval_ns);
    }
    timer.run_loop = run_loop;
}

/// When the timer fires next, if it is valid.
pub fn due_by(timer: &NSTimerHostObject) -> (d: Option<u64>)
    ensures
        d == timer.due_by,
{
    timer.due_by
}

/// Fires the timer at time `now`. A repeating timer's next deadline is
/// [next_deadline]; any other timer becomes invalid. The callback counts as
/// running until [finish_callback].
pub fn fire(timer: &mut NSTimerHostObject, now: u64) -> (action: FireAction)
    requires
        old(timer).interval_ns > 0,
        old(timer).repeats && old(timer).due_by is Some && !old(timer).is_running_callback
            ==> next_deadline(old(timer).due_by.unwrap(), now, old(timer).interval_ns) <= u64::MAX,
    ensures
        (old(timer).is_running_callback || old(timer).due_by is None) ==> {
            &&& action is Skip
            &&& *final(timer) == *old(timer)
        },
        (!old(timer).is_running_callback && old(timer).due_by is Some) ==> {
            &&& action == FireAction::Fire {
                target: old(timer).target,
                selector: old(timer).selector,
                remove_from_run_loop: !old(timer).repeats,
            }
            &&& final(timer).due_by == if old(timer).repeats {
                Some(next_deadline(old(timer).due_by.unwrap(), now, old(timer).interval_ns) as u64)
            } else {
                None
            }
            &&& final(timer).is_running_callback
            &&& final(timer).interval_ns == old(timer).interval_ns
            &&& final(timer).target == old(timer).target
            &&& final(timer).selector == old(timer).selector
            &&& final(timer).user_info == old(timer).user_info
            &&& final(timer).repeats == old(timer).repeats
            &&& final(timer).run_loop == old(timer).run_loop
        },
{
    if timer.is_running_callback {
        return FireAction::Skip;
    }
    let due = match timer.due_by {
        Some(d) => d,
        None => {
            return FireAction::Skip;
        },
    };
    timer.due_by = if timer.repeats {
        Some(advance_deadline(due, now, timer.interval_ns))
    } else {
        None
    };
    timer.is_running_callback = true;
    FireAction::Fire {
        target: timer.target,
        selector: timer.selector,
        remove_from_run_loop: !timer.repeats,
    }
}

/// `-isValid`: the timer will still fire.
pub fn is_valid(timer: &NSTimerHostObject) -> (b: bool)
    ensures
        b == (timer.due_by is Some),
{
    timer.due_by.is_some()
}

/// `-invalidate`: the timer will not fire again. Returns the run loop to
/// remove it from, if it was scheduled in one.
pub fn invalidate(timer: &mut NSTimerHostObject) -> (remove_from: Option<u32>)
    ensures
        final(timer).due_by is None,
        final(timer).run_loop == 0,
        remove_from == if old(timer).run_loop != 0 {
            Some(old(timer).run_loop)
        } else {
            None
        },
        final(timer).interval_ns == old(timer).interval_ns,
        final(timer).target == old(timer).target,
        final(timer).selector == old(timer).selector,
        final(timer).user_info == old(timer).user_info,
        final(timer).repeats == old(timer).repeats,
        final(timer).is_running_callback == old(timer).is_running_callback,
{
    timer.due_by = None;
    if timer.run_loop != 0 {
        let run_loop = timer.run_loop;
        timer.run_loop = 0;
        Some(run_loop)
    } else {
        None
    }
}

/// The timer's callback has returned.
pub fn finish_callback(timer: &mut NSTimerHostObject)
    ensures
        !final(timer).is_running_callback,
        final(timer).due_by == old(timer).due_by,
        final(timer).interval_ns == old(timer).interval_ns,
        final(timer).target == old(timer).target,
        final(timer).selector == old(timer).selector,
        final(timer).user_info == old(timer).user_info,
        final(timer).repeats == old(timer).repeats,
        final(timer).run_loop == old(timer).run_loop,
{
    timer.is_running_callback = false;
}

} // verus!
