//! The decisions that hand one inbound item to every registered sink, in
//! registration order, offering it again to a callback that declines it.
//!
//! A `FanOut` decides and the caller acts: it performs each `Step` on its
//! sinks and reports the `Outcome` back, until the step is `Done`.
use vstd::prelude::*;

use crate::config::{SinkKind, TransportConfiguration};

verus! {

/// What happened when a sink was offered the item.
#[derive(Clone, Copy, Debug, PartialEq, Eq, Structural)]
pub enum Outcome {
    /// The sink took the item.
    Accepted,
    /// The sink could not take it: a channel whose receiver is gone, a write
    /// that failed or fell short.
    Failed,
    /// A callback returned `false`: it has not processed the item yet.
    Declined,
}

/// What the caller does next.
#[derive(Clone, Copy, Debug, PartialEq, Eq, Structural)]
pub enum Step {
    /// Offer the item to the sink at this position.
    Deliver(usize),
    /// Wait this many milliseconds, then offer the item again to the sink at
    /// this position.
    RetryAfter(usize, u64),
    /// Every sink has been dealt with.
    Done,
}

/// The state of handing one item out.
pub ghost struct FanOutModel {
    /// The kinds of the sinks, in registration order.
    pub kinds: Seq<SinkKind>,
    /// The wait before a declining callback is offered the item again.
    pub timeout_ms: u64,
    /// The position of the sink being served; the number of sinks once all
    /// have been dealt with.
    pub current: nat,
    /// The positions of the sinks that could not take the item, ascending.
    pub failed: Seq<usize>,
}

impl FanOutModel {
    pub open spec fn wf(self) -> bool {
        &&& self.current <= self.kinds.len()
        &&& self.kinds.len() <= usize::MAX
        &&& forall|i: int, j: int|
            0 <= i < j < self.failed.len() ==> self.failed[i] < self.failed[j]
        &&& forall|i: int| 0 <= i < self.failed.len() ==> self.failed[i] < self.current
    }

    /// The step that serves the sink at `position`, or ends.
    pub open spec fn serve(self, position: nat) -> Step {
        if position < self.kinds.len() {
            Step::Deliver(position as usize)
        } else {
            Step::Done
        }
    }

    /// The state after the current sink is dealt with.
    pub open spec fn advanced(self, failed: bool) -> FanOutModel {
        FanOutModel {
            current: self.current + 1,
            failed: if failed {
                self.failed.push(self.current as usize)
            } else {
                self.failed
            },
            ..self
        }
    }

    /// The state and step that follow `outcome` of offering the item to the
    /// current sink. A callback that declines is served again after the
    /// timeout; any other sink is left behind, as failed where it failed or
    /// declined. Once every sink is dealt with nothing changes.
    pub open spec fn next(self, outcome: Outcome) -> (FanOutModel, Step) {
        if self.current >= self.kinds.len() {
            (self, Step::Done)
        } else if outcome == Outcome::Declined && self.kinds[self.current as int]
            == SinkKind::Callback {
            (self, Step::RetryAfter(self.current as usize, self.timeout_ms))
        } else {
            let s = self.advanced(outcome != Outcome::Accepted);
            (s, s.serve(s.current))
        }
    }

    /// The state and the steps that follow each of `outcomes` in turn.
    pub open spec fn run(self, outcomes: Seq<Outcome>) -> (FanOutModel, Seq<Step>)
        decreases outcomes.len(),
    {
        if outcomes.len() == 0 {
            (self, Seq::empty())
        } else {
            let (s, steps) = self.run(outcomes.drop_last());
            let (t, step) = s.next(outcomes.last());
            (t, steps.push(step))
        }
    }
}

/// The initial state of handing an item to the sinks of `kinds`.
pub open spec fn fan_out_start(kinds: Seq<SinkKind>, timeout_ms: u64) -> FanOutModel {
    FanOutModel { kinds, timeout_ms, current: 0, failed: Seq::empty() }
}

/// The position of the sink that a step serves; `Done` stands past the last.
pub open spec fn target(step: Step, n_sinks: nat) -> nat {
    match step {
        Step::Deliver(i) => i as nat,
        Step::RetryAfter(i, _) => i as nat,
        Step::Done => n_sinks,
    }
}

proof fn lemma_next_wf(s: FanOutModel, outcome: Outcome)
    requires
        s.wf(),
    ensures
        s.next(outcome).0.wf(),
        s.next(outcome).0.current >= s.current,
        target(s.next(outcome).1, s.kinds.len()) == s.next(outcome).0.current,
        s.next(outcome).0.kinds == s.kinds,
        s.next(outcome).0.timeout_ms == s.timeout_ms,
        s.next(outcome).0.current <= s.current + 1,
{
}

/// Facts of a run from a well-formed state, over the trace that starts with
/// serving the current sink.
proof fn lemma_run_trace(s: FanOutModel, outcomes: Seq<Outcome>)
    requires
        s.wf(),
    ensures
        ({
            let (f, steps) = s.run(outcomes);
            let trace = seq![s.serve(s.current)] + steps;
            let n = s.kinds.len();
            &&& f.wf()
            &&& f.kinds == s.kinds
            &&& f.timeout_ms == s.timeout_ms
            &&& steps.len() == outcomes.len()
            &&& target(trace.last(), n) == f.current
            &&& target(trace[0], n) == s.current
            &&& forall|i: int, j: int|
                0 <= i <= j < trace.len() ==> target(#[trigger] trace[i], n) <= target(
                    #[trigger] trace[j],
                    n,
                )
            &&& forall|i: int|
                0 <= i < trace.len() - 1 ==> target(#[trigger] trace[i + 1], n) <= target(
                    trace[i],
                    n,
                ) + 1
        }),
    decreases outcomes.len(),
{
    let n = s.kinds.len();
    if outcomes.len() == 0 {
        let trace = seq![s.serve(s.current)] + Seq::<Step>::empty();
        assert(trace =~= seq![s.serve(s.current)]);
    } else {
        lemma_run_trace(s, outcomes.drop_last());
        let (p, prev_steps) = s.run(outcomes.drop_last());
        let prev = seq![s.serve(s.current)] + prev_steps;
        lemma_next_wf(p, outcomes.last());
        let (f, step) = p.next(outcomes.last());
        let trace = seq![s.serve(s.current)] + prev_steps.push(step);
        assert(trace =~= prev.push(step));
        assert forall|i: int, j: int| 0 <= i <= j < trace.len() implies target(
            #[trigger] trace[i],
            n,
        ) <= target(#[trigger] trace[j], n) by {
            if i == j {
            } else if j == trace.len() - 1 {
                assert(trace[i] == prev[i]);
                assert(target(prev[i], n) <= target(prev[prev.len() - 1], n));
            } else {
                assert(trace[i] == prev[i] && trace[j] == prev[j]);
            }
        }
        assert forall|i: int| 0 <= i < trace.len() - 1 implies target(
            #[trigger] trace[i + 1],
            n,
        ) <= target(trace[i], n) + 1 by {
            if i + 1 < prev.len() {
                assert(trace[i + 1] == prev[i + 1] && trace[i] == prev[i]);
            }
        }
    }
}

/// Sinks are served in registration order. Over any outcomes reported for one
/// item, the sequence of steps (the first step and each that follows an
/// outcome) serves sink positions that start at the first sink, never go
/// back, and never skip a sink: every sink is offered the item only after
/// every sink registered before it.
pub proof fn lemma_sinks_in_order(kinds: Seq<SinkKind>, timeout_ms: u64, outcomes: Seq<Outcome>)
    requires
        kinds.len() <= usize::MAX,
    ensures
        ({
            let start = fan_out_start(kinds, timeout_ms);
            let trace = seq![start.serve(0)] + start.run(outcomes).1;
            &&& target(trace[0], kinds.len()) == 0
            &&& forall|i: int, j: int|
                0 <= i <= j < trace.len() ==> target(#[trigger] trace[i], kinds.len())
                    <= target(#[trigger] trace[j], kinds.len())
            &&& forall|i: int|
                0 <= i < trace.len() - 1 ==> target(#[trigger] trace[i + 1], kinds.len())
                    <= target(trace[i], kinds.len()) + 1
        }),
{
    lemma_run_trace(fan_out_start(kinds, timeout_ms), outcomes);
}

proof fn lemma_declines(s: FanOutModel, n: nat)
    requires
        s.wf(),
        s.current < s.kinds.len(),
        s.kinds[s.current as int] == SinkKind::Callback,
    ensures
        s.run(Seq::new(n, |i: int| Outcome::Declined)) == (
            s,
            Seq::new(n, |i: int| Step::RetryAfter(s.current as usize, s.timeout_ms)),
        ),
    decreases n,
{
    let outcomes = Seq::new(n, |i: int| Outcome::Declined);
    let retries = Seq::new(n, |i: int| Step::RetryAfter(s.current as usize, s.timeout_ms));
    if n > 0 {
        let fewer = Seq::new((n - 1) as nat, |i: int| Outcome::Declined);
        assert(outcomes.drop_last() =~= fewer);
        lemma_declines(s, (n - 1) as nat);
        let fewer_retries = Seq::new(
            (n - 1) as nat,
            |i: int| Step::RetryAfter(s.current as usize, s.timeout_ms),
        );
        assert(fewer_retries.push(Step::RetryAfter(s.current as usize, s.timeout_ms))
            =~= retries);
    } else {
        assert(retries =~= Seq::<Step>::empty());
    }
}

/// A callback that declines an item `declines` times and then accepts it is
/// offered the item exactly `declines + 1` times: once by the step that
/// served it, then once after each decline, each time after waiting the
/// callback timeout. Until it accepts, no later sink is served; then the
/// next sink is, or the item is done.
pub proof fn lemma_callback_retry(s: FanOutModel, declines: nat)
    requires
        s.wf(),
        s.current < s.kinds.len(),
        s.kinds[s.current as int] == SinkKind::Callback,
    ensures
        ({
            let outcomes = Seq::new(declines, |i: int| Outcome::Declined).push(
                Outcome::Accepted,
            );
            let (f, steps) = s.run(outcomes);
            &&& steps.len() == declines + 1
            &&& forall|i: int|
                0 <= i < declines ==> #[trigger] steps[i] == Step::RetryAfter(
                    s.current as usize,
                    s.timeout_ms,
                )
            &&& steps[declines as int] == s.serve(s.current + 1)
            &&& f == s.advanced(false)
        }),
{
    let outcomes = Seq::new(declines, |i: int| Outcome::Declined).push(Outcome::Accepted);
    assert(outcomes.drop_last() =~= Seq::new(declines, |i: int| Outcome::Declined));
    lemma_declines(s, declines);
}

/// Hands one inbound item to the sinks of a configuration.
pub struct FanOut {
    kinds: Vec<SinkKind>,
    timeout_ms: u64,
    current: usize,
    failed: Vec<usize>,
}

impl View for FanOut {
    type V = FanOutModel;

    closed spec fn view(&self) -> FanOutModel {
        FanOutModel {
            kinds: self.kinds@,
            timeout_ms: self.timeout_ms,
            current: self.current as nat,
            failed: self.failed@,
        }
    }
}

impl FanOut {
    /// Starts handing an item to the sinks of `config`; the step returned is
    /// the first one to perform.
    pub fn new(config: &TransportConfiguration) -> (r: (FanOut, Step))
        ensures
            r.0@ == fan_out_start(config@.sinks, config@.callback_timeout_ms),
            r.1 == r.0@.serve(0),
            r.0@.wf(),
    {
        let sinks = config.sinks();
        let mut kinds: Vec<SinkKind> = Vec::with_capacity(sinks.len());
        let mut i: usize = 0;
        while i < sinks.len()
            invariant
                i <= sinks@.len(),
                kinds@ == sinks@.take(i as int),
            decreases sinks@.len() - i,
        {
            kinds.push(sinks[i]);
            i = i + 1;
            assert(kinds@ =~= sinks@.take(i as int));
        }
        assert(kinds@ =~= config@.sinks);
        let f = FanOut {
            kinds,
            timeout_ms: config.callback_timeout(),
            current: 0,
            failed: Vec::new(),
        };
        assert(f@.failed =~= Seq::<usize>::empty());
        let first = if f.kinds.len() > 0 {
            Step::Deliver(0)
        } else {
            Step::Done
        };
        (f, first)
    }

    /// Takes the outcome of the last step and returns the next one.
    pub fn step(&mut self, outcome: Outcome) -> (r: Step)
        ensures
            (final(self)@, r) == old(self)@.next(outcome),
            old(self)@.wf() ==> final(self)@.wf(),
    {
        if self.current >= self.kinds.len() {
            return Step::Done;
        }
        if outcome == Outcome::Declined && self.kinds[self.current] == SinkKind::Callback {
            return Step::RetryAfter(self.current, self.timeout_ms);
        }
        if outcome != Outcome::Accepted {
            self.failed.push(self.current);
        }
        self.current = self.current + 1;
        if self.current < self.kinds.len() {
            Step::Deliver(self.current)
        } else {
            Step::Done
        }
    }

    /// Whether every sink has been dealt with.
    pub fn is_done(&self) -> (r: bool)
        ensures
            r == (self@.current >= self@.kinds.len()),
    {
        self.current >= self.kinds.len()
    }

    /// The positions of the sinks that could not take the item, ascending.
    pub fn failed(&self) -> (r: &[usize])
        ensures
            r@ == self@.failed,
    {
        self.failed.as_slice()
    }
}

} // verus!
