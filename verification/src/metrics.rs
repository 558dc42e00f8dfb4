//! The request counters of a load test: each kind counted over the whole run
//! and over the current reporting interval.
use vstd::prelude::*;

verus! {

/// One count of each kind of event.
#[derive(Debug, Clone, Copy, PartialEq, Eq, Structural)]
pub struct Counts {
    /// Requests sent.
    pub sent: u64,
    /// Responses received.
    pub received: u64,
    /// Requests that saw no response in time.
    pub timeouts: u64,
    /// Requests that failed to go out or whose answer was lost.
    pub errors: u64,
    /// Responses that refused the request.
    pub rejected: u64,
}

/// The kinds of event that are counted.
#[derive(Debug, Clone, Copy, PartialEq, Eq, Structural)]
pub enum Tally {
    Sent,
    Received,
    Timeout,
    Error,
    Rejected,
}

impl Counts {
    /// The counts with one more event of kind `t`.
    pub open spec fn plus(self, t: Tally) -> Counts {
        match t {
            Tally::Sent => Counts { sent: (self.sent + 1) as u64, ..self },
            Tally::Received => Counts { received: (self.received + 1) as u64, ..self },
            Tally::Timeout => Counts { timeouts: (self.timeouts + 1) as u64, ..self },
            Tally::Error => Counts { errors: (self.errors + 1) as u64, ..self },
            Tally::Rejected => Counts { rejected: (self.rejected + 1) as u64, ..self },
        }
    }

    /// Whether every count can take one more event.
    pub open spec fn has_room(self) -> bool {
        &&& self.sent < u64::MAX
        &&& self.received < u64::MAX
        &&& self.timeouts < u64::MAX
        &&& self.errors < u64::MAX
        &&& self.rejected < u64::MAX
    }

    /// Whether every count can take one more event.
    pub fn room_left(&self) -> (r: bool)
        ensures
            r == self.has_room(),
    {
        self.sent < u64::MAX && self.received < u64::MAX && self.timeouts < u64::MAX
            && self.errors < u64::MAX && self.rejected < u64::MAX
    }

    /// All counts at zero.
    pub fn zero() -> (r: Counts)
        ensures
            r == Counts::spec_zero(),
    {
        Counts { sent: 0, received: 0, timeouts: 0, errors: 0, rejected: 0 }
    }

    /// All counts at zero.
    pub open spec fn spec_zero() -> Counts {
        Counts { sent: 0, received: 0, timeouts: 0, errors: 0, rejected: 0 }
    }

    /// Whether no count of `self` exceeds the same count of `other`.
    pub open spec fn within(self, other: Counts) -> bool {
        &&& self.sent <= other.sent
        &&& self.received <= other.received
        &&& self.timeouts <= other.timeouts
        &&& self.errors <= other.errors
        &&& self.rejected <= other.rejected
    }
}

/// The counts of a run so far and of its current interval.
pub struct MetricCounts {
    /// Since the start of the run.
    pub total: Counts,
    /// Since the last interval reset.
    pub interval: Counts,
}

impl MetricCounts {
    /// Whether the interval counts stay within the run's counts.
    pub open spec fn wf(&self) -> bool {
        self.interval.within(self.total)
    }

    /// Nothing counted yet.
    pub fn new() -> (r: MetricCounts)
        ensures
            r.wf(),
            r.total == Counts::spec_zero(),
            r.interval == Counts::spec_zero(),
    {
        MetricCounts { total: Counts::zero(), interval: Counts::zero() }
    }

    /// Counts a sent request, in the run and in the interval.
    pub fn increment_sent(&mut self)
        requires
            old(self).wf(),
            old(self).total.sent < u64::MAX,
        ensures
            final(self).wf(),
            final(self).total == old(self).total.plus(Tally::Sent),
            final(self).interval == old(self).interval.plus(Tally::Sent),
    {
        self.total.sent = self.total.sent + 1;
        self.interval.sent = self.interval.sent + 1;
    }

    /// Counts a received response, in the run and in the interval.
    pub fn increment_received(&mut self)
        requires
            old(self).wf(),
            old(self).total.received < u64::MAX,
        ensures
            final(self).wf(),
            final(self).total == old(self).total.plus(Tally::Received),
            final(self).interval == old(self).interval.plus(Tally::Received),
    {
        self.total.received = self.total.received + 1;
        self.interval.received = self.interval.received + 1;
    }

    /// Counts a timed-out request, in the run and in the interval.
    pub fn increment_timeout(&mut self)
        requires
            old(self).wf(),
            old(self).total.timeouts < u64::MAX,
        ensures
            final(self).wf(),
            final(self).total == old(self).total.plus(Tally::Timeout),
            final(self).interval == old(self).interval.plus(Tally::Timeout),
    {
        self.total.timeouts = self.total.timeouts + 1;
        self.interval.timeouts = self.interval.timeouts + 1;
    }

    /// Counts a failed request, in the run and in the interval.
    pub fn increment_error(&mut self)
        requires
            old(self).wf(),
            old(self).total.errors < u64::MAX,
        ensures
            final(self).wf(),
            final(self).total == old(self).total.plus(Tally::Error),
            final(self).interval == old(self).interval.plus(Tally::Error),
    {
        self.total.errors = self.total.errors + 1;
        self.interval.errors = self.interval.errors + 1;
    }

    /// Counts a refused request, in the run and in the interval.
    pub fn increment_rejected(&mut self)
        requires
            old(self).wf(),
            old(self).total.rejected < u64::MAX,
        ensures
            final(self).wf(),
            final(self).total == old(self).total.plus(Tally::Rejected),
            final(self).interval == old(self).interval.plus(Tally::Rejected),
    {
        self.total.rejected = self.total.rejected + 1;
        self.interval.rejected = self.interval.rejected + 1;
    }

    /// Starts a new interval: its counts go back to zero, the run's stay.
    pub fn reset_interval_counters(&mut self)
        requires
            old(self).wf(),
        ensures
            final(self).wf(),
            final(self).total == old(self).total,
            final(self).interval == Counts::spec_zero(),
    {
        self.interval = Counts::zero();
    }
}

} // verus!
