use vstd::prelude::*;

verus! {

use crate::conf::UiConfig;
use vstd::arithmetic::div_mod::lemma_fundamental_div_mod;
use vstd::arithmetic::div_mod::lemma_mod_bound;

/// What the countdown area of the interaction surface should show.
#[derive(Debug, Clone, Copy, PartialEq, Eq)]
pub enum CountdownDisplay {
    /// Nothing: no deadline, or the visibility threshold is not yet crossed.
    Hidden,
    /// The whole seconds left until the deadline.
    Seconds(i64),
    /// The deadline has passed: announce the imminent session start.
    Starting,
}

/// State of the countdown engine. `end_time` is the wall-clock deadline in
/// milliseconds since the Unix epoch; `from_seconds` is how many whole seconds
/// must remain before the countdown is drawn (`None`: always drawn);
/// `end_login` says whether expiry requests a session start; `triggered`
/// latches once that request has been sent for the current deadline.
#[derive(Debug, Clone, Copy, PartialEq, Eq)]
pub struct CountDown {
    pub end_time: Option<i64>,
    pub from_seconds: Option<u64>,
    pub end_login: bool,
    pub triggered: bool,
}

/// Result of one tick: what to show, and whether to request a session start.
#[derive(Debug, Clone, PartialEq, Eq)]
pub struct TickOutcome {
    pub display: CountdownDisplay,
    pub request_login: bool,
}

/// Whole seconds from `now` until `end`, the fraction toward zero dropped;
/// negative once the deadline lies in the past by a second or more.
pub open spec fn remaining_seconds(end: int, now: int) -> int {
    if end >= now {
        (end - now) / 1000
    } else {
        -((now - end) / 1000)
    }
}

/// The countdown is drawn once no more than the configured number of whole
/// seconds remains; with no threshold it is always drawn.
pub open spec fn within_threshold(from_seconds: Option<u64>, seconds: int) -> bool {
    from_seconds matches Some(t) ==> seconds <= t
}

/// The deadline counts as expired once less than one whole second remains.
pub open spec fn deadline_expired(end: int, now: int) -> bool {
    remaining_seconds(end, now) <= 0
}

/// What a tick at time `now` (milliseconds since the epoch) shows.
pub open spec fn display_at(s: CountDown, now: int) -> CountdownDisplay {
    match s.end_time {
        Some(end) => {
            let seconds = remaining_seconds(end as int, now);
            if seconds <= 0 {
                CountdownDisplay::Starting
            } else if within_threshold(s.from_seconds, seconds) {
                CountdownDisplay::Seconds(seconds as i64)
            } else {
                CountdownDisplay::Hidden
            }
        },
        None => CountdownDisplay::Hidden,
    }
}

/// A tick at time `now` sends the expiry signal exactly when a deadline is
/// set and has expired, expiry is armed, and no signal has been sent for this
/// deadline yet.
pub open spec fn expiry_fires(s: CountDown, now: int) -> bool {
    &&& s.end_time matches Some(end) && deadline_expired(end as int, now)
    &&& s.end_login
    &&& !s.triggered
}

/// The state after a tick at time `now`: only the trigger latch can change,
/// and it only latches.
pub open spec fn ticked(s: CountDown, now: int) -> CountDown {
    CountDown { triggered: s.triggered || expiry_fires(s, now), ..s }
}

/// The state after a deadline update: a concrete deadline always rearms the
/// trigger latch; clearing the deadline leaves the latch alone (the engine is
/// idle then and the latch is irrelevant).
pub open spec fn with_endtime(s: CountDown, end_time: Option<i64>) -> CountDown {
    match end_time {
        Some(e) => CountDown { end_time: Some(e), triggered: false, ..s },
        None => CountDown { end_time: None, ..s },
    }
}

/// The state after a full `setDeadline(deadline, triggerOnExpiry)` call: the
/// deadline is replaced (or cleared) and the arming flag stored; a concrete
/// deadline rearms the trigger latch, a cleared one leaves the latch alone.
pub open spec fn deadline_set(
    s: CountDown,
    end_time: Option<i64>,
    trigger_on_expiry: bool,
) -> CountDown {
    CountDown { end_login: trigger_on_expiry, ..with_endtime(s, end_time) }
}

/// The visibility threshold in milliseconds.
pub open spec fn threshold_millis(from_seconds: Option<u64>) -> int {
    match from_seconds {
        Some(t) => t * 1000,
        None => 0,
    }
}

/// How many milliseconds to wait, from `now`, until the countdown crosses its
/// visibility threshold: zero once it is already visible, saturated at
/// `u64::MAX`, and nothing when no deadline is set.
pub open spec fn start_delay_at(s: CountDown, now: int) -> Option<u64> {
    match s.end_time {
        Some(end) => {
            let wait = end - now - threshold_millis(s.from_seconds);
            if wait <= 0 {
                Some(0u64)
            } else if wait > u64::MAX {
                Some(u64::MAX)
            } else {
                Some(wait as u64)
            }
        },
        None => None,
    }
}

/// Divide a millisecond count below 2^64 by 1000; the quotient stays well
/// below 2^63.
fn millis_to_seconds(d: u128) -> (q: u128)
    requires
        d < 0x1_0000_0000_0000_0000u128,
    ensures
        q == d as int / 1000,
        q < 0x8000_0000_0000_0000u128,
{
    let q = d / 1000;
    proof {
        lemma_fundamental_div_mod(d as int, 1000);
        lemma_mod_bound(d as int, 1000);
    }
    q
}

/// Whole seconds from `now` until `end`, truncated toward zero.
fn whole_seconds_between(now: i64, end: i64) -> (r: i64)
    ensures
        r as int == remaining_seconds(end as int, now as int),
{
    if end >= now {
        let diff: i128 = end as i128 - now as i128;
        let q = millis_to_seconds(diff as u128);
        q as i64
    } else {
        let diff: i128 = now as i128 - end as i128;
        let q = millis_to_seconds(diff as u128);
        -(q as i64)
    }
}

impl CountDown {
    /// A fresh engine, armed as the configuration says and with the trigger
    /// latch clear.
    pub fn new(conf: &UiConfig) -> (s: Self)
        ensures
            s == (CountDown {
                end_time: conf.countdown_end_time,
                from_seconds: conf.countdown_from,
                end_login: conf.countdown_end_login,
                triggered: false,
            }),
    {
        CountDown {
            end_time: conf.countdown_end_time,
            from_seconds: conf.countdown_from,
            end_login: conf.countdown_end_login,
            triggered: false,
        }
    }

    /// Replace (or clear) the deadline. A concrete deadline rearms the
    /// trigger latch even when it equals the stored one: a deadline update is
    /// always authoritative.
    pub fn update_endtime(&mut self, end_time: Option<i64>)
        ensures
            *final(self) == with_endtime(*old(self), end_time),
    {
        match end_time {
            Some(e) => {
                self.end_time = Some(e);
                self.triggered = false;
            },
            None => {
                self.end_time = None;
            },
        }
    }

    /// setDeadline: replace (or clear) the deadline and say whether its
    /// expiry starts a session. Always authoritative: a concrete deadline
    /// rearms the trigger latch even when nothing changed.
    pub fn set_deadline(&mut self, end_time: Option<i64>, trigger_on_expiry: bool)
        ensures
            *final(self) == deadline_set(*old(self), end_time, trigger_on_expiry),
    {
        self.update_endtime(end_time);
        self.end_login = trigger_on_expiry;
    }

    /// setVisibilityThreshold: configure how many whole seconds before the
    /// deadline the countdown becomes visible; `None` means always visible
    /// once a deadline exists.
    pub fn set_visibility_threshold(&mut self, from_seconds: Option<u64>)
        ensures
            *final(self) == (CountDown { from_seconds, ..*old(self) }),
    {
        self.from_seconds = from_seconds;
    }

    /// One tick at time `now`: yields what to display and whether to request
    /// a session start, and latches the trigger when it does the latter.
    pub fn tick(&mut self, now: i64) -> (r: TickOutcome)
        ensures
            *final(self) == ticked(*old(self), now as int),
            r.display == display_at(*old(self), now as int),
            r.request_login == expiry_fires(*old(self), now as int),
    {
        match self.end_time {
            None => TickOutcome { display: CountdownDisplay::Hidden, request_login: false },
            Some(end) => {
                let seconds = whole_seconds_between(now, end);
                if seconds <= 0 {
                    let fire = self.end_login && !self.triggered;
                    if fire {
                        self.triggered = true;
                    }
                    TickOutcome { display: CountdownDisplay::Starting, request_login: fire }
                } else {
                    let shown = match self.from_seconds {
                        None => true,
                        Some(t) => seconds as u64 <= t,
                    };
                    if shown {
                        TickOutcome {
                            display: CountdownDisplay::Seconds(seconds),
                            request_login: false,
                        }
                    } else {
                        TickOutcome { display: CountdownDisplay::Hidden, request_login: false }
                    }
                }
            },
        }
    }

    /// Reads the wall clock (through the local-time adapter) and ticks with
    /// it; yields the clock reading it used beside the tick's outcome.
    pub fn tick_now(&mut self) -> (r: (i64, TickOutcome))
        ensures
            *final(self) == ticked(*old(self), r.0 as int),
            r.1.display == display_at(*old(self), r.0 as int),
            r.1.request_login == expiry_fires(*old(self), r.0 as int),
    {
        let now = crate::localtime::now_millis();
        let out = self.tick(now);
        (now, out)
    }

    /// How long to wait, from `now`, before the countdown becomes visible and
    /// the steady once-per-second tick should begin.
    pub fn start_delay_millis(&self, now: i64) -> (r: Option<u64>)
        ensures
            r == start_delay_at(*self, now as int),
    {
        match self.end_time {
            None => None,
            Some(end) => {
                let thr: i128 = match self.from_seconds {
                    None => 0,
                    Some(t) => t as i128 * 1000,
                };
                let wait: i128 = end as i128 - now as i128 - thr;
                if wait <= 0 {
                    Some(0)
                } else if wait > u64::MAX as i128 {
                    Some(u64::MAX)
                } else {
                    Some(wait as u64)
                }
            },
        }
    }
}

/// How many of the ticks at the times in `nows`, in order, send the expiry
/// signal.
pub open spec fn expiry_count(s: CountDown, nows: Seq<i64>) -> nat
    decreases nows.len(),
{
    if nows.len() == 0 {
        0
    } else {
        (if expiry_fires(s, nows[0] as int) {
            1nat
        } else {
            0nat
        }) + expiry_count(ticked(s, nows[0] as int), nows.drop_first())
    }
}

/// Once the trigger latch is set, no run of ticks sends another expiry
/// signal until a deadline update clears the latch.
pub proof fn lemma_latched_no_expiry(s: CountDown, nows: Seq<i64>)
    requires
        s.triggered,
    ensures
        expiry_count(s, nows) == 0,
    decreases nows.len(),
{
    if nows.len() > 0 {
        lemma_latched_no_expiry(ticked(s, nows[0] as int), nows.drop_first());
    }
}

/// Law: from any engine state, a run of ticks — however many, at whatever
/// times — sends at most one expiry signal; it sends none when expiry is not
/// armed, and none when the latch is already set.
pub proof fn lemma_expiry_at_most_once(s: CountDown, nows: Seq<i64>)
    ensures
        expiry_count(s, nows) <= 1,
        !s.end_login ==> expiry_count(s, nows) == 0,
        s.triggered ==> expiry_count(s, nows) == 0,
    decreases nows.len(),
{
    if nows.len() > 0 {
        let s1 = ticked(s, nows[0] as int);
        if expiry_fires(s, nows[0] as int) {
            lemma_latched_no_expiry(s1, nows.drop_first());
        } else {
            lemma_expiry_at_most_once(s1, nows.drop_first());
        }
    }
}

/// Law: a deadline update with a concrete deadline always rearms the trigger
/// latch and stores the deadline, even when the deadline equals the stored
/// one — the engine treats every update as authoritative.
pub proof fn lemma_set_deadline_rearms(s: CountDown, d: i64)
    ensures
        with_endtime(s, Some(d)).triggered == false,
        with_endtime(s, Some(d)).end_time == Some(d),
{
}

/// Law: per deadline update, at most one expiry signal: after any update
/// that sets a concrete deadline, the whole following run of ticks sends at
/// most one.
pub proof fn lemma_one_expiry_per_deadline(s: CountDown, d: i64, nows: Seq<i64>)
    ensures
        expiry_count(with_endtime(s, Some(d)), nows) <= 1,
{
    lemma_expiry_at_most_once(with_endtime(s, Some(d)), nows);
}

/// One operation on the countdown engine, as its route delivers them.
pub enum CountdownOp {
    /// Replace or clear the deadline, and say whether expiry starts a session.
    SetDeadline(Option<i64>, bool),
    /// Reconfigure how long before the deadline the countdown is shown.
    SetThreshold(Option<u64>),
    /// One clock reading.
    Tick(i64),
}

/// The engine can still send an expiry signal without a further deadline
/// update: a deadline is set, expiry is armed, and the latch is clear.
pub open spec fn can_fire(s: CountDown) -> bool {
    s.end_time is Some && s.end_login && !s.triggered
}

/// The state after one operation.
pub open spec fn applied(s: CountDown, op: CountdownOp) -> CountDown {
    match op {
        CountdownOp::SetDeadline(end_time, trigger_on_expiry) => deadline_set(
            s,
            end_time,
            trigger_on_expiry,
        ),
        CountdownOp::SetThreshold(from_seconds) => CountDown { from_seconds, ..s },
        CountdownOp::Tick(now) => ticked(s, now as int),
    }
}

/// Whether one operation sends the expiry signal: only a tick can.
pub open spec fn op_fires(s: CountDown, op: CountdownOp) -> bool {
    op matches CountdownOp::Tick(now) && expiry_fires(s, now as int)
}

/// How many of the operations in `ops`, applied in order, send the expiry
/// signal.
pub open spec fn ops_expiry_count(s: CountDown, ops: Seq<CountdownOp>) -> nat
    decreases ops.len(),
{
    if ops.len() == 0 {
        0
    } else {
        (if op_fires(s, ops[0]) {
            1nat
        } else {
            0nat
        }) + ops_expiry_count(applied(s, ops[0]), ops.drop_first())
    }
}

/// How many of the operations in `ops` set a concrete deadline with expiry
/// armed — the only operations that can let the signal be sent again.
pub open spec fn armed_deadline_sets(ops: Seq<CountdownOp>) -> nat
    decreases ops.len(),
{
    if ops.len() == 0 {
        0
    } else {
        (if ops[0] matches CountdownOp::SetDeadline(e, t) && e is Some && t {
            1nat
        } else {
            0nat
        }) + armed_deadline_sets(ops.drop_first())
    }
}

/// Law: over any sequence of engine operations — deadline updates, threshold
/// updates and ticks, in any order and at any clock readings — at most one
/// expiry signal is sent per deadline update that arms expiry, plus at most
/// one for a deadline the engine already held armed; a deadline set with
/// expiry disarmed admits none of its own.
pub proof fn lemma_one_expiry_per_deadline_set(s: CountDown, ops: Seq<CountdownOp>)
    ensures
        ops_expiry_count(s, ops) <= armed_deadline_sets(ops) + (if can_fire(s) {
            1nat
        } else {
            0nat
        }),
    decreases ops.len(),
{
    if ops.len() > 0 {
        lemma_one_expiry_per_deadline_set(applied(s, ops[0]), ops.drop_first());
    }
}

} // verus!
