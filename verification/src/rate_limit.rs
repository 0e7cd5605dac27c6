//! The decisions behind sending slider values to the audio backend without
//! flooding it: a rate limiter that passes a value at once when enough time
//! has gone by and otherwise keeps the latest one for a timer, and a
//! debouncer that only passes the value of the last call in a burst.
//!
//! The owner of these states runs the timers and the callback: each call
//! answers what it is to do. Times are milliseconds of a clock that the
//! owner reads.
use vstd::prelude::*;

verus! {

/// State of a rate-limited sender of values of type `V`.
pub struct RateLimiter<V> {
    /// Least time between two values passed on at once.
    pub interval_ms: u64,
    /// When a value was last passed on; `None` before the first one.
    pub last_fire_ms: Option<u64>,
    /// The latest value held back, waiting for the timer.
    pub pending: Option<V>,
    /// Whether a timer is running that will call `fire_pending`.
    pub timer_armed: bool,
}

/// What a `send` asks its owner to do.
pub enum SendDecision<V> {
    /// Pass `value` on now, after cancelling the running timer if `cancel_timer`.
    Fire { value: V, cancel_timer: bool },
    /// The value is held back: start a timer that calls `fire_pending` after `wait_ms`.
    Schedule { wait_ms: u64 },
    /// The value is held back and the running timer will pass it on.
    Hold,
}

impl<V> RateLimiter<V> {
    /// Enough time has gone by at `now` to pass a value on at once.
    pub open spec fn ready_at(self, now: u64) -> bool {
        match self.last_fire_ms {
            None => true,
            Some(last) => now >= last && now - last >= self.interval_ms,
        }
    }

    /// How long the timer waits from `now` until the interval has passed
    /// (held to `u64::MAX`).
    pub open spec fn wait_from(self, now: u64) -> u64 {
        let last = match self.last_fire_ms {
            Some(l) => l as int,
            None => 0,
        };
        let w = last + self.interval_ms - now;
        if w > u64::MAX {
            u64::MAX
        } else if w < 0 {
            0
        } else {
            w as u64
        }
    }

    /// `post` and `d` are the state and the decision `send(now, value)` leaves from `pre`.
    pub open spec fn sent(pre: Self, now: u64, value: V, post: Self, d: SendDecision<V>) -> bool {
        &&& post.interval_ms == pre.interval_ms
        &&& pre.ready_at(now) ==> {
            &&& d == SendDecision::Fire { value, cancel_timer: pre.timer_armed }
            &&& post.last_fire_ms == Some(now)
            &&& post.pending is None
            &&& !post.timer_armed
        }
        &&& !pre.ready_at(now) ==> {
            &&& post.last_fire_ms == pre.last_fire_ms
            &&& post.pending == Some(value)
            &&& post.timer_armed
            &&& if pre.timer_armed {
                d is Hold
            } else {
                d == SendDecision::<V>::Schedule { wait_ms: pre.wait_from(now) }
            }
        }
    }

    /// `post` and `r` are the state and the answer `fire_pending(now)` leaves from `pre`.
    pub open spec fn fired(pre: Self, now: u64, post: Self, r: Option<V>) -> bool {
        &&& r == pre.pending
        &&& post.interval_ms == pre.interval_ms
        &&& post.pending is None
        &&& !post.timer_armed
        &&& post.last_fire_ms == if pre.pending is Some {
            Some(now)
        } else {
            pre.last_fire_ms
        }
    }

    /// `post` and `cancel` are the state and the answer `flush(now)` leaves from `pre`.
    pub open spec fn flushed(pre: Self, now: u64, post: Self, cancel: bool) -> bool {
        &&& cancel == pre.timer_armed
        &&& post.interval_ms == pre.interval_ms
        &&& post.last_fire_ms == Some(now)
        &&& post.pending is None
        &&& !post.timer_armed
    }

    /// A timer runs exactly when a value is waiting for it.
    pub open spec fn wf(self) -> bool {
        self.timer_armed <==> self.pending is Some
    }

    /// A sender that passes values on at most once per `interval_ms`, except
    /// for flushes.
    pub fn new(interval_ms: u64) -> (s: Self)
        ensures
            s.interval_ms == interval_ms,
            s.last_fire_ms is None,
            s.pending is None,
            !s.timer_armed,
            s.wf(),
    {
        RateLimiter { interval_ms, last_fire_ms: None, pending: None, timer_armed: false }
    }

    /// Offers `value` at time `now`: it is passed on at once when the interval
    /// since the last value has passed, and otherwise held back (replacing any
    /// value held before) for a timer, started if none runs.
    pub fn send(&mut self, now: u64, value: V) -> (d: SendDecision<V>)
        ensures
            Self::sent(*old(self), now, value, *final(self), d),
    {
        let ready = match self.last_fire_ms {
            None => true,
            Some(last) => now >= last && now - last >= self.interval_ms,
        };
        if ready {
            let cancel = self.timer_armed;
            self.timer_armed = false;
            self.pending = None;
            self.last_fire_ms = Some(now);
            return SendDecision::Fire { value, cancel_timer: cancel };
        }
        self.pending = Some(value);
        if self.timer_armed {
            SendDecision::Hold
        } else {
            let last = match self.last_fire_ms {
                Some(l) => l,
                None => 0,
            };
            let wait = if now >= last {
                self.interval_ms - (now - last)
            } else {
                (last - now).saturating_add(self.interval_ms)
            };
            self.timer_armed = true;
            SendDecision::Schedule { wait_ms: wait }
        }
    }

    /// The timer went off at `now`: the held value, if any, is to be passed on.
    pub fn fire_pending(&mut self, now: u64) -> (r: Option<V>)
        ensures
            Self::fired(*old(self), now, *final(self), r),
    {
        self.timer_armed = false;
        let r = self.pending.take();
        if r.is_some() {
            self.last_fire_ms = Some(now);
        }
        r
    }

    /// The value is to be passed on now regardless of the interval (the end
    /// of a drag); anything held back is dropped. Answers whether the running
    /// timer is to be cancelled.
    pub fn flush(&mut self, now: u64) -> (cancel_timer: bool)
        ensures
            Self::flushed(*old(self), now, *final(self), cancel_timer),
    {
        let cancel = self.timer_armed;
        self.timer_armed = false;
        self.pending = None;
        self.last_fire_ms = Some(now);
        cancel
    }
}

/// Something that happens to a rate-limited sender: a value offered at
/// `now`, or its timer going off at `now`.
pub enum LimiterEvent<V> {
    Send { now: u64, value: V },
    Timer { now: u64 },
}

/// When an event happens.
pub open spec fn event_now<V>(e: LimiterEvent<V>) -> u64 {
    match e {
        LimiterEvent::Send { now, .. } => now,
        LimiterEvent::Timer { now } => now,
    }
}

/// One step of a run of a rate-limited sender: `post` follows from `pre` by
/// `send` or `fire_pending` for the event `e`; `called` is the value handed
/// to the callback at this step, if any; `deadline` is when the running timer
/// was scheduled to go off, before and after the step. A timer never goes off
/// before its deadline.
pub open spec fn limiter_step<V>(
    pre: RateLimiter<V>,
    e: LimiterEvent<V>,
    post: RateLimiter<V>,
    called: Option<V>,
    deadline_pre: int,
    deadline_post: int,
) -> bool {
    match e {
        LimiterEvent::Send { now, value } => {
            &&& exists|d: SendDecision<V>| RateLimiter::sent(pre, now, value, post, d)
            &&& called == if pre.ready_at(now) {
                Some(value)
            } else {
                None
            }
            &&& deadline_post == if !pre.ready_at(now) && !pre.timer_armed {
                now + pre.wait_from(now)
            } else {
                deadline_pre
            }
        },
        LimiterEvent::Timer { now } => {
            &&& pre.timer_armed ==> now >= deadline_pre
            &&& RateLimiter::fired(pre, now, post, called)
            &&& deadline_post == deadline_pre
        },
    }
}

/// A run of a rate-limited sender: the states between the events, the
/// values handed to the callback at each event, and the timer deadlines.
pub open spec fn limiter_run<V>(
    states: Seq<RateLimiter<V>>,
    events: Seq<LimiterEvent<V>>,
    called: Seq<Option<V>>,
    deadlines: Seq<int>,
) -> bool {
    &&& states.len() == events.len() + 1
    &&& called.len() == events.len()
    &&& deadlines.len() == events.len() + 1
    &&& forall|i: int|
        #![trigger events[i]]
        0 <= i < events.len() ==> limiter_step(
            states[i],
            events[i],
            states[i + 1],
            called[i],
            deadlines[i],
            deadlines[i + 1],
        )
}

/// State of a debounced sender: only the last value of a burst of calls is
/// passed on, `delay_ms` after that call.
pub struct Debouncer {
    pub delay_ms: u64,
    pub timer_armed: bool,
}

/// What a debounced `send` asks its owner to do: cancel the running timer if
/// `cancel_previous`, then start one for `delay_ms` that passes the value on.
pub struct DebounceDecision {
    pub cancel_previous: bool,
    pub delay_ms: u64,
}

impl Debouncer {
    /// A debouncer waiting `delay_ms` after the last call.
    pub fn new(delay_ms: u64) -> (d: Self)
        ensures
            d.delay_ms == delay_ms,
            !d.timer_armed,
    {
        Debouncer { delay_ms, timer_armed: false }
    }

    /// A value is offered: the previous timer (if running) is replaced by a new one.
    pub fn send(&mut self) -> (d: DebounceDecision)
        ensures
            d.cancel_previous == old(self).timer_armed,
            d.delay_ms == old(self).delay_ms,
            final(self).timer_armed,
            final(self).delay_ms == old(self).delay_ms,
    {
        let cancel = self.timer_armed;
        self.timer_armed = true;
        DebounceDecision { cancel_previous: cancel, delay_ms: self.delay_ms }
    }

    /// The timer went off and its value was passed on.
    pub fn fire(&mut self)
        ensures
            !final(self).timer_armed,
            final(self).delay_ms == old(self).delay_ms,
    {
        self.timer_armed = false;
    }
}

} // verus!
