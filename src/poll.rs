//! The bounded-poll primitive shared by the stabilization wait after a slot
//! switch and the settle wait after a page turn.

use vstd::prelude::*;

verus! {

/// Where a poll stands after a sample.
#[derive(Clone, Copy, Debug, PartialEq, Eq, Structural)]
pub enum PollVerdict {
    /// Sample again after one interval.
    Pending,
    /// Enough consecutive samples were unchanged.
    Stable,
    /// The time bound was reached first.
    TimedOut,
}

/// Progress of one poll: unchanged samples in a row and time spent.
#[derive(Clone, Copy, Debug, PartialEq, Eq, Structural)]
pub struct PollState {
    pub unchanged_runs: u32,
    pub elapsed_ms: u64,
}

/// The parameters of a poll.
#[derive(Clone, Copy, Debug, PartialEq, Eq, Structural)]
pub struct PollSpec {
    pub interval_ms: u64,
    pub timeout_ms: u64,
    /// Unchanged samples in a row that count as stable.
    pub needed_runs: u32,
}

pub open spec fn sat_add_u32(a: u32, b: u32) -> u32 {
    if a as int + b as int > u32::MAX as int { u32::MAX } else { (a + b) as u32 }
}

pub open spec fn sat_add_u64(a: u64, b: u64) -> u64 {
    if a as int + b as int > u64::MAX as int { u64::MAX } else { (a + b) as u64 }
}

/// The state after one sample.
pub open spec fn poll_next(s: PollState, p: PollSpec, changed: bool) -> PollState {
    PollState {
        unchanged_runs: if changed { 0 } else { sat_add_u32(s.unchanged_runs, 1) },
        elapsed_ms: sat_add_u64(s.elapsed_ms, p.interval_ms),
    }
}

/// The verdict on a state just reached.
pub open spec fn poll_verdict(s: PollState, p: PollSpec) -> PollVerdict {
    if s.unchanged_runs >= p.needed_runs {
        PollVerdict::Stable
    } else if s.elapsed_ms >= p.timeout_ms {
        PollVerdict::TimedOut
    } else {
        PollVerdict::Pending
    }
}

impl PollState {
    pub fn start() -> (r: PollState)
        ensures
            r.unchanged_runs == 0,
            r.elapsed_ms == 0,
    {
        PollState { unchanged_runs: 0, elapsed_ms: 0 }
    }

    /// Records one sample (`changed`: it differs from the previous one) and
    /// says whether to go on.
    pub fn sample(&mut self, p: PollSpec, changed: bool) -> (v: PollVerdict)
        ensures
            *final(self) == poll_next(*old(self), p, changed),
            v == poll_verdict(*final(self), p),
    {
        if changed {
            self.unchanged_runs = 0;
        } else if self.unchanged_runs < u32::MAX {
            self.unchanged_runs = self.unchanged_runs + 1;
        }
        if self.elapsed_ms <= u64::MAX - p.interval_ms {
            self.elapsed_ms = self.elapsed_ms + p.interval_ms;
        } else {
            self.elapsed_ms = u64::MAX;
        }
        if self.unchanged_runs >= p.needed_runs {
            PollVerdict::Stable
        } else if self.elapsed_ms >= p.timeout_ms {
            PollVerdict::TimedOut
        } else {
            PollVerdict::Pending
        }
    }
}

/// The state after a run of samples.
pub open spec fn poll_run(s: PollState, p: PollSpec, samples: Seq<bool>) -> PollState
    decreases samples.len(),
{
    if samples.len() == 0 {
        s
    } else {
        poll_run(poll_next(s, p, samples[0]), p, samples.drop_first())
    }
}

/// A poll never blocks past its bound: from the start, with a positive
/// interval, any `timeout / interval + 1` samples end it, whatever they show.
pub proof fn lemma_poll_bounded(p: PollSpec, samples: Seq<bool>)
    requires
        p.interval_ms > 0,
        samples.len() >= p.timeout_ms / p.interval_ms + 1,
    ensures
        poll_verdict(poll_run(PollState { unchanged_runs: 0, elapsed_ms: 0 }, p, samples), p)
            != PollVerdict::Pending,
{
    lemma_poll_elapsed(PollState { unchanged_runs: 0, elapsed_ms: 0 }, p, samples);
    let n = samples.len() as int;
    assert(n * p.interval_ms >= p.timeout_ms) by (nonlinear_arith)
        requires
            n >= p.timeout_ms / p.interval_ms + 1,
            p.interval_ms > 0,
    {
        vstd::arithmetic::div_mod::lemma_fundamental_div_mod(
            p.timeout_ms as int,
            p.interval_ms as int,
        );
        vstd::arithmetic::mul::lemma_mul_inequality(
            p.timeout_ms / p.interval_ms + 1,
            n,
            p.interval_ms as int,
        );
    }
}

proof fn lemma_poll_elapsed(s: PollState, p: PollSpec, samples: Seq<bool>)
    ensures
        poll_run(s, p, samples).elapsed_ms as int >= s.elapsed_ms as int + samples.len()
            * p.interval_ms || poll_run(s, p, samples).elapsed_ms == u64::MAX,
    decreases samples.len(),
{
    if samples.len() > 0 {
        let s1 = poll_next(s, p, samples[0]);
        lemma_poll_elapsed(s1, p, samples.drop_first());
        assert(samples.len() * p.interval_ms == p.interval_ms + (samples.len() - 1)
            * p.interval_ms) by (nonlinear_arith);
        if s1.elapsed_ms != u64::MAX {
            lemma_poll_saturated_stays(s1, p, samples.drop_first());
        } else {
            lemma_poll_saturated_stays(s1, p, samples.drop_first());
        }
    }
}

proof fn lemma_poll_saturated_stays(s: PollState, p: PollSpec, samples: Seq<bool>)
    ensures
        s.elapsed_ms == u64::MAX ==> poll_run(s, p, samples).elapsed_ms == u64::MAX,
    decreases samples.len(),
{
    if samples.len() > 0 {
        lemma_poll_saturated_stays(poll_next(s, p, samples[0]), p, samples.drop_first());
    }
}

} // verus!
