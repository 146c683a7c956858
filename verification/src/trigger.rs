//! The threshold trigger: a two-state machine with a hysteresis band.
//!
//! The trigger is idle until a reading reports a state of charge at or above
//! the high threshold; the external action is then invoked, and the trigger
//! counts as fired only if the action succeeded. It stays fired until a
//! reading drops below the low threshold, which releases it silently.

use vstd::prelude::*;

verus! {

/// The state of charge, in percent, at or above which an idle trigger fires.
pub const SOC_TRIGGER_HIGH: i64 = 90;

/// The state of charge, in percent, below which a fired trigger is released.
pub const SOC_TRIGGER_LOW: i64 = 80;

/// A pair of thresholds. The pair is a hysteresis band when `high > low`.
#[derive(Clone, Copy, Debug, PartialEq, Eq)]
pub struct Thresholds {
    pub high: i64,
    pub low: i64,
}

impl Thresholds {
    /// The band is not empty: a value cannot both fire and release.
    pub open spec fn valid(&self) -> bool {
        self.high > self.low
    }

    /// The pair `(high, low)`, refused unless `high > low`.
    pub fn new(high: i64, low: i64) -> (r: Option<Thresholds>)
        ensures
            r is Some <==> high > low,
            r matches Some(t) ==> t.high == high && t.low == low && t.valid(),
    {
        if high > low {
            Some(Thresholds { high, low })
        } else {
            None
        }
    }

    /// The standard band, 90 over 80.
    pub fn standard() -> (t: Thresholds)
        ensures
            t.high == SOC_TRIGGER_HIGH,
            t.low == SOC_TRIGGER_LOW,
            t.valid(),
    {
        Thresholds { high: SOC_TRIGGER_HIGH, low: SOC_TRIGGER_LOW }
    }
}

/// The persisted hysteresis flag. `None` means that no transition has ever
/// been recorded; it compares as not triggered.
#[derive(Clone, Copy, Debug, PartialEq, Eq)]
pub struct State {
    pub triggered: Option<bool>,
}

impl Default for State {
    fn default() -> (s: State)
        ensures
            s.triggered is None,
    {
        State { triggered: None }
    }
}

/// What one reading asks of the trigger.
#[derive(Clone, Copy, Debug, PartialEq, Eq)]
pub enum Decision {
    /// Nothing changes.
    Hold,
    /// The trigger is idle and the reading is high: invoke the action with
    /// this state of charge.
    Fire(i64),
    /// The trigger is fired and the reading is low: release it.
    Release,
}

/// The decision for a reading that carried `soc`, taken in state `s`.
pub open spec fn decide_spec(t: Thresholds, s: State, soc: Option<i64>) -> Decision {
    match soc {
        Some(v) => if !s.is_triggered() && v >= t.high {
            Decision::Fire(v)
        } else if s.is_triggered() && v < t.low {
            Decision::Release
        } else {
            Decision::Hold
        },
        None => Decision::Hold,
    }
}

/// The state once a decision has been carried out. `action_ok` tells whether
/// the action succeeded; it matters for `Fire` alone.
pub open spec fn settle_spec(s: State, d: Decision, action_ok: bool) -> State {
    match d {
        Decision::Hold => s,
        Decision::Fire(_) => if action_ok {
            State { triggered: Some(true) }
        } else {
            s
        },
        Decision::Release => State { triggered: Some(false) },
    }
}

/// One reading as the trigger meets it: the state of charge it carries, if
/// any, and whether the action succeeds if this reading has it invoked.
#[derive(Clone, Copy, Debug, PartialEq, Eq)]
pub struct Sample {
    pub soc: Option<i64>,
    pub action_ok: bool,
}

/// The state after one reading has been decided on and the decision carried
/// out.
pub open spec fn react_spec(t: Thresholds, s: State, sample: Sample) -> State {
    settle_spec(s, decide_spec(t, s, sample.soc), sample.action_ok)
}

/// The state after a sequence of readings, taken in order.
pub open spec fn run_spec(t: Thresholds, s: State, trace: Seq<Sample>) -> State
    decreases trace.len(),
{
    if trace.len() == 0 {
        s
    } else {
        react_spec(t, run_spec(t, s, trace.drop_last()), trace.last())
    }
}

/// Reading `i` of the sequence has the action invoked.
pub open spec fn invokes_at(t: Thresholds, s: State, trace: Seq<Sample>, i: int) -> bool {
    decide_spec(t, run_spec(t, s, trace.take(i)), trace[i].soc) is Fire
}

/// Every reading of the sequence carries a state of charge at or above the
/// high threshold.
pub open spec fn all_high(t: Thresholds, trace: Seq<Sample>) -> bool {
    forall|i: int| 0 <= i < trace.len() ==> (#[trigger] trace[i]).soc is Some && trace[i].soc->0 >= t.high
}

/// A fired trigger stays fired through readings that are all high.
pub proof fn lemma_stays_fired_while_high(t: Thresholds, s: State, trace: Seq<Sample>)
    requires
        t.valid(),
        s.is_triggered(),
        all_high(t, trace),
    ensures
        run_spec(t, s, trace).is_triggered(),
    decreases trace.len(),
{
    if trace.len() > 0 {
        let front = trace.drop_last();
        assert forall|i: int| 0 <= i < front.len() implies (#[trigger] front[i]).soc is Some
            && front[i].soc->0 >= t.high by {
            assert(front[i] == trace[i]);
        }
        lemma_stays_fired_while_high(t, s, front);
        assert(trace.last() == trace[trace.len() - 1]);
    }
}

/// No duplicate fire: when an idle trigger meets a run of readings that are
/// all high, and the action succeeds at the first, the action is invoked at
/// the first reading and at no other.
pub proof fn law_fires_once_while_high(t: Thresholds, s: State, trace: Seq<Sample>)
    requires
        t.valid(),
        !s.is_triggered(),
        trace.len() > 0,
        all_high(t, trace),
        trace[0].action_ok,
    ensures
        invokes_at(t, s, trace, 0),
        forall|i: int| 0 < i < trace.len() ==> !invokes_at(t, s, trace, i),
        run_spec(t, s, trace).is_triggered(),
{
    assert(trace.take(0).len() == 0);
    let first = trace.take(1);
    assert(first.drop_last().len() == 0);
    assert(first.last() == trace[0]);
    let fired = run_spec(t, s, first);
    assert(fired.is_triggered());
    assert forall|i: int| 0 < i <= trace.len() implies run_spec(
        t,
        s,
        #[trigger] trace.take(i),
    ).is_triggered() by {
        let rest = trace.subrange(1, i);
        assert forall|j: int| 0 <= j < rest.len() implies (#[trigger] rest[j]).soc is Some
            && rest[j].soc->0 >= t.high by {
            assert(rest[j] == trace[j + 1]);
        }
        lemma_stays_fired_while_high(t, fired, rest);
        lemma_run_joins(t, s, first, rest);
        assert(first + rest == trace.take(i));
    }
    assert(trace.take(trace.len() as int) == trace);
}

/// Running through two sequences in a row is running through their join.
pub proof fn lemma_run_joins(t: Thresholds, s: State, a: Seq<Sample>, b: Seq<Sample>)
    ensures
        run_spec(t, s, a + b) == run_spec(t, run_spec(t, s, a), b),
    decreases b.len(),
{
    if b.len() == 0 {
        assert(a + b == a);
    } else {
        lemma_run_joins(t, s, a, b.drop_last());
        assert((a + b).drop_last() == a + b.drop_last());
        assert((a + b).last() == b.last());
    }
}

/// Retry after failure: a failed action leaves an idle trigger idle, and the
/// next high reading has the action invoked again.
pub proof fn law_failed_action_is_retried(t: Thresholds, s: State, soc: i64, next: i64)
    requires
        !s.is_triggered(),
        soc >= t.high,
        next >= t.high,
    ensures
        decide_spec(t, s, Some(soc)) == Decision::Fire(soc),
        settle_spec(s, Decision::Fire(soc), false) == s,
        decide_spec(t, settle_spec(s, Decision::Fire(soc), false), Some(next)) == Decision::Fire(
            next,
        ),
{
}

/// Hysteresis: within a valid band no value both fires and releases, a fired
/// trigger is released only below the low threshold, and a released one
/// fires only at or above the high threshold.
pub proof fn law_band_separates(t: Thresholds, s: State, soc: i64)
    requires
        t.valid(),
    ensures
        decide_spec(t, s, Some(soc)) is Release ==> s.is_triggered() && soc < t.low,
        decide_spec(t, s, Some(soc)) is Fire ==> !s.is_triggered() && soc >= t.high,
        t.low <= soc < t.high ==> decide_spec(t, s, Some(soc)) is Hold,
        decide_spec(t, react_spec(t, s, Sample { soc: Some(soc), action_ok: true }), Some(soc))
            is Hold,
{
}

/// A reading without a state of charge changes nothing.
pub proof fn law_silent_reading_holds(t: Thresholds, s: State, action_ok: bool)
    ensures
        decide_spec(t, s, None) is Hold,
        react_spec(t, s, Sample { soc: None, action_ok }) == s,
{
}

impl State {
    /// The trigger has fired and has not been released since.
    pub open spec fn is_triggered(&self) -> bool {
        self.triggered == Some(true)
    }

    /// Whether the trigger has fired and has not been released since.
    pub fn triggered(&self) -> (b: bool)
        ensures
            b == self.is_triggered(),
    {
        match self.triggered {
            Some(b) => b,
            None => false,
        }
    }

    /// Decides what a reading that carried `soc` asks for.
    pub fn decide(&self, thresholds: &Thresholds, soc: Option<i64>) -> (d: Decision)
        ensures
            d == decide_spec(*thresholds, *self, soc),
    {
        let fired = self.triggered();
        match soc {
            Some(v) => {
                if !fired && v >= thresholds.high {
                    Decision::Fire(v)
                } else if fired && v < thresholds.low {
                    Decision::Release
                } else {
                    Decision::Hold
                }
            },
            None => Decision::Hold,
        }
    }

    /// The state after `decision` has been carried out. A `Fire` whose action
    /// failed leaves the state as it was, so that the next high reading
    /// tries again.
    pub fn settle(self, decision: Decision, action_ok: bool) -> (s: State)
        ensures
            s == settle_spec(self, decision, action_ok),
    {
        match decision {
            Decision::Hold => self,
            Decision::Fire(_) => {
                if action_ok {
                    State { triggered: Some(true) }
                } else {
                    self
                }
            },
            Decision::Release => State { triggered: Some(false) },
        }
    }
}

} // verus!
