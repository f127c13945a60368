//! Sampling policy shared by the collectors, and what a source hands back.

use vstd::prelude::*;

verus! {

/// A span of time between two samples.
#[derive(Clone, Copy, Debug, PartialEq, Eq, Structural)]
pub struct Interval {
    /// Whole seconds.
    pub secs: u64,
    /// Nanoseconds beyond the whole seconds, below one second.
    pub subsec_nanos: u32,
}

impl Interval {
    /// The nanosecond part is below one second.
    pub open spec fn wf(self) -> bool {
        self.subsec_nanos < 1_000_000_000
    }

    /// An interval of whole seconds.
    pub fn from_secs(secs: u64) -> (interval: Interval)
        ensures
            interval == (Interval { secs, subsec_nanos: 0 }),
            interval.wf(),
    {
        Interval { secs, subsec_nanos: 0 }
    }

    /// The whole seconds of the interval.
    pub fn as_secs(&self) -> (secs: u64)
        ensures
            secs == self.secs,
    {
        self.secs
    }

    /// The interval is zero.
    pub fn is_zero(&self) -> (zero: bool)
        ensures
            zero == (self.secs == 0 && self.subsec_nanos == 0),
    {
        self.secs == 0 && self.subsec_nanos == 0
    }
}

/// What a telemetry source handed back: its whole text, or the reason why it
/// could not be read or run.
#[derive(Clone, Debug)]
pub enum SourceRead {
    /// The text of the file, or the standard output of the command.
    Text(String),
    /// The file or command is not available.
    Unavailable(String),
}

/// How often and how many times a collector samples.
#[derive(Clone, Copy, Debug, PartialEq, Eq, Structural)]
pub struct SamplingPlan {
    /// Time to wait between two samples.
    pub interval: Interval,
    /// Number of samples; `None` samples until cancelled.
    pub count: Option<u32>,
}

/// What a sampling loop does next.
#[derive(Clone, Copy, Debug, PartialEq, Eq, Structural)]
pub enum NextStep {
    /// Take a sample at once.
    Sample,
    /// Wait for the interval, then take a sample.
    WaitThenSample(Interval),
    /// Stop: the samples taken so far are the result.
    Stop,
}

impl SamplingPlan {
    /// The plan asks for more than `taken` samples.
    pub open spec fn wants_more(self, taken: nat) -> bool {
        match self.count {
            Some(n) => taken < n,
            None => true,
        }
    }

    /// The step after `taken` samples.  A cancelled or completed plan stops;
    /// the first sample is taken without waiting, every later one after the
    /// interval.
    pub open spec fn step_after(self, taken: nat, cancelled: bool) -> NextStep {
        if cancelled || !self.wants_more(taken) {
            NextStep::Stop
        } else if taken == 0 {
            NextStep::Sample
        } else {
            NextStep::WaitThenSample(self.interval)
        }
    }

    /// The number of samples that a sampling loop has taken after `ticks`
    /// steps, when it is never cancelled: the loop takes one sample per step
    /// until the plan stops it.
    pub open spec fn taken_after(self, ticks: nat) -> nat
        decreases ticks,
    {
        if ticks == 0 {
            0
        } else {
            let taken = self.taken_after((ticks - 1) as nat);
            if self.step_after(taken, false) is Stop {
                taken
            } else {
                taken + 1
            }
        }
    }

    /// Decides the next step of a sampling loop that has taken `taken`
    /// samples.  `cancelled` is the state of the outside cancellation signal,
    /// looked at once per tick.
    pub fn next(&self, taken: u64, cancelled: bool) -> (step: NextStep)
        ensures
            step == self.step_after(taken as nat, cancelled),
    {
        let more = match self.count {
            Some(n) => taken < n as u64,
            None => true,
        };
        if cancelled || !more {
            NextStep::Stop
        } else if taken == 0 {
            NextStep::Sample
        } else {
            NextStep::WaitThenSample(self.interval)
        }
    }

    /// A bounded plan that is not cancelled stops exactly when it has taken
    /// its count of samples: never before, and at once then.
    pub proof fn law_bounded_plan_stops_at_count(self, taken: nat)
        requires
            self.count is Some,
        ensures
            self.step_after(taken, false) is Stop <==> taken >= self.count->0,
    {
    }

    /// A sampling loop with a bounded plan takes exactly as many samples as
    /// the plan counts, however long it is left to run, and so comes to an
    /// end; one with an unbounded plan takes a sample at every step.
    pub proof fn law_loop_takes_count_samples(self, ticks: nat)
        ensures
            self.count matches Some(n) ==> self.taken_after(ticks) == if ticks <= n {
                ticks
            } else {
                n as nat
            },
            self.count is None ==> self.taken_after(ticks) == ticks,
        decreases ticks,
    {
        if ticks > 0 {
            self.law_loop_takes_count_samples((ticks - 1) as nat);
        }
    }

    /// An unbounded plan stops only when cancelled.
    pub proof fn law_unbounded_plan_stops_on_cancel_only(self, taken: nat, cancelled: bool)
        requires
            self.count is None,
        ensures
            self.step_after(taken, cancelled) is Stop <==> cancelled,
    {
    }

    /// No sample waits before the first; every later one waits exactly the
    /// plan's interval.
    pub proof fn law_waits_between_samples_only(self, taken: nat)
        requires
            self.wants_more(taken),
        ensures
            taken == 0 ==> self.step_after(taken, false) == NextStep::Sample,
            taken > 0 ==> self.step_after(taken, false) == NextStep::WaitThenSample(
                self.interval,
            ),
    {
    }
}

} // verus!
