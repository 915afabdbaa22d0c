use vstd::prelude::*;
use crate::attempt::Outcome;
use crate::config::{deadline_ms_of, interval_ms_of, Config};

verus! {

/// Drives attempts on a fixed interval, one at a time, each with a deadline of
/// half the interval. Times are milliseconds since the scheduler started.
pub struct Scheduler {
    interval_ms: u64,
    deadline_ms: u64,
    next_due_ms: u64,
    running: bool,
}

/// `due + interval`, held at the largest time that can be represented.
pub open spec fn advance(due: u64, interval: u64) -> u64 {
    if due + interval <= u64::MAX {
        (due + interval) as u64
    } else {
        u64::MAX
    }
}

/// The outcome reported for an attempt: `None` means its deadline came first.
pub open spec fn reported(result: Option<Outcome>) -> Outcome {
    match result {
        None => Outcome::TimedOut,
        Some(o) => o,
    }
}

/// Ending an attempt: the outcome is reported, the scheduler is idle again, and
/// the next due time is one interval after the previous one, whatever the
/// outcome was.
pub open spec fn finish_step(old: Scheduler, result: Option<Outcome>, new: Scheduler, r: Outcome) -> bool {
    &&& r == reported(result)
    &&& !new.spec_running()
    &&& new.spec_interval_ms() == old.spec_interval_ms()
    &&& new.spec_deadline_ms() == old.spec_deadline_ms()
    &&& new.spec_next_due_ms() == if old.spec_running() {
        advance(old.spec_next_due_ms(), old.spec_interval_ms())
    } else {
        old.spec_next_due_ms()
    }
}

impl Scheduler {
    pub closed spec fn spec_interval_ms(&self) -> u64 {
        self.interval_ms
    }

    pub closed spec fn spec_deadline_ms(&self) -> u64 {
        self.deadline_ms
    }

    /// When the next attempt is to start.
    pub closed spec fn spec_next_due_ms(&self) -> u64 {
        self.next_due_ms
    }

    /// Whether an attempt is in flight.
    pub closed spec fn spec_running(&self) -> bool {
        self.running
    }

    pub open spec fn wf(&self) -> bool {
        self.spec_interval_ms() > 0 && self.spec_deadline_ms() == self.spec_interval_ms() / 2
    }

    /// An idle scheduler whose first attempt is due at once.
    pub fn new(config: &Config) -> (r: Scheduler)
        ensures
            r.wf(),
            r.spec_interval_ms() == interval_ms_of(config.spec_interval_minutes()),
            r.spec_deadline_ms() == deadline_ms_of(config.spec_interval_minutes()),
            r.spec_next_due_ms() == 0,
            !r.spec_running(),
    {
        let minutes = config.interval_minutes();
        assert(interval_ms_of(minutes) > 0) by (nonlinear_arith)
            requires
                minutes > 0,
        ;
        Scheduler {
            interval_ms: config.interval_ms(),
            deadline_ms: config.deadline_ms(),
            next_due_ms: 0,
            running: false,
        }
    }

    pub fn interval_ms(&self) -> (r: u64)
        ensures
            r == self.spec_interval_ms(),
    {
        self.interval_ms
    }

    pub fn deadline_ms(&self) -> (r: u64)
        ensures
            r == self.spec_deadline_ms(),
    {
        self.deadline_ms
    }

    pub fn next_due_ms(&self) -> (r: u64)
        ensures
            r == self.spec_next_due_ms(),
    {
        self.next_due_ms
    }

    pub fn is_running(&self) -> (r: bool)
        ensures
            r == self.spec_running(),
    {
        self.running
    }

    /// Starts an attempt at `now_ms` if none is in flight and one is due;
    /// returns how long it may run.
    pub fn begin(&mut self, now_ms: u64) -> (r: Option<u64>)
        ensures
            (!old(self).spec_running() && now_ms >= old(self).spec_next_due_ms()) <==> r is Some,
            r matches Some(d) ==> d == old(self).spec_deadline_ms() && final(self).spec_running(),
            r is None ==> *final(self) == *old(self),
            final(self).spec_interval_ms() == old(self).spec_interval_ms(),
            final(self).spec_deadline_ms() == old(self).spec_deadline_ms(),
            final(self).spec_next_due_ms() == old(self).spec_next_due_ms(),
    {
        if self.running || now_ms < self.next_due_ms {
            None
        } else {
            self.running = true;
            Some(self.deadline_ms)
        }
    }

    /// Ends the attempt in flight with `result` (`None` when its deadline
    /// came first) and schedules the next one.
    pub fn finish(&mut self, result: Option<Outcome>) -> (r: Outcome)
        ensures
            finish_step(*old(self), result, *final(self), r),
    {
        if self.running {
            self.next_due_ms = if self.next_due_ms <= u64::MAX - self.interval_ms {
                self.next_due_ms + self.interval_ms
            } else {
                u64::MAX
            };
            self.running = false;
        }
        match result {
            None => Outcome::TimedOut,
            Some(o) => o,
        }
    }
}

} // verus!
