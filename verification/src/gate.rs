use vstd::prelude::*;
use crate::error::HarnessError;
use crate::status::{decoded, json_bool_member, Status};

verus! {

/// The pause between two polls of a worker, in seconds.
pub const POLL_INTERVAL_SECS: u64 = 1;

/// What a probe came to: a decoded status, or the error that ended it.
pub type ProbeOutcome = Result<Status, HarnessError>;

/// What the readiness gate does after one probe.
#[derive(Clone, Copy, Debug, PartialEq, Eq, Structural)]
pub enum GateAction {
    /// The node is ready: go on at once.
    Proceed,
    /// The node is not ready yet: pause, then probe again.
    Retry { pause_secs: u64 },
    /// The probe failed: give up with its error.
    Abort { error: HarnessError },
}

/// How a run of the readiness gate over a record of probe outcomes ended.
#[derive(Clone, Copy, Debug, PartialEq, Eq, Structural)]
pub enum GateEnd {
    /// A probe reported ready.
    Ready,
    /// A probe failed with this error.
    Failed(HarnessError),
    /// Every recorded probe reported not ready: the readiness gate is still polling.
    Pending,
}

/// A run of the readiness gate over a record of probe outcomes.
#[derive(Clone, Copy, Debug, PartialEq, Eq, Structural)]
pub struct GateRun {
    /// How many probes the readiness gate made.
    pub polls: usize,
    /// How many times it paused after a probe.
    pub pauses: usize,
    pub end: GateEnd,
}

/// A probe that succeeded and reported not ready: the one outcome that the
/// gate retries.
pub open spec fn is_not_ready(outcome: ProbeOutcome) -> bool {
    outcome == Ok::<Status, HarnessError>(Status { db_is_ready: false })
}

/// A probe that succeeded and reported ready.
pub open spec fn is_ready(outcome: ProbeOutcome) -> bool {
    outcome == Ok::<Status, HarnessError>(Status { db_is_ready: true })
}

/// The readiness gate's rule: ready proceeds, not ready retries after one interval, an
/// error aborts with that error.
pub open spec fn gate_action(outcome: ProbeOutcome) -> GateAction {
    match outcome {
        Ok(status) => if status.db_is_ready {
            GateAction::Proceed
        } else {
            GateAction::Retry { pause_secs: POLL_INTERVAL_SECS }
        },
        Err(error) => GateAction::Abort { error },
    }
}

/// Decides what the readiness gate does after one probe.
pub fn gate_decide(outcome: ProbeOutcome) -> (action: GateAction)
    ensures
        action == gate_action(outcome),
        action == GateAction::Proceed <==> is_ready(outcome),
        action matches GateAction::Retry { pause_secs } ==> pause_secs == 1 && is_not_ready(outcome),
        is_not_ready(outcome) ==> action is Retry,
{
    match outcome {
        Ok(status) => {
            if status.db_is_ready {
                GateAction::Proceed
            } else {
                GateAction::Retry { pause_secs: POLL_INTERVAL_SECS }
            }
        },
        Err(error) => GateAction::Abort { error },
    }
}

/// What a payload's `db_is_ready` member does to the readiness gate: the
/// boolean `true` lets the caller through, the boolean `false` makes it
/// pause one interval and probe again, and a payload without a boolean
/// member of that name lets nobody through: it is a decode failure, which
/// aborts.
pub proof fn lemma_payload_decides(text: Seq<char>)
    ensures
        gate_action(decoded(text)) == GateAction::Proceed <==> json_bool_member(
            text,
            "db_is_ready"@,
        ) == Some(Some(true)),
        gate_action(decoded(text)) == (GateAction::Retry { pause_secs: 1 }) <==> json_bool_member(
            text,
            "db_is_ready"@,
        ) == Some(Some(false)),
        gate_action(decoded(text)) == (GateAction::Abort { error: HarnessError::Decode })
            <==> !(json_bool_member(text, "db_is_ready"@) matches Some(Some(_))),
{
}

/// Whether `run` is the run of the readiness gate over `outcomes`: it probes in order,
/// pauses after each probe that reported not ready, and stops at the first
/// probe that reported anything else.
pub open spec fn is_gate_run(outcomes: Seq<ProbeOutcome>, run: GateRun) -> bool {
    &&& run.polls <= outcomes.len()
    &&& forall|j: int| 0 <= j < run.pauses ==> is_not_ready(#[trigger] outcomes[j])
    &&& match run.end {
        GateEnd::Pending => run.polls == outcomes.len() && run.pauses == run.polls,
        GateEnd::Ready => run.polls == run.pauses + 1 && is_ready(outcomes[run.pauses as int]),
        GateEnd::Failed(error) => run.polls == run.pauses + 1 && outcomes[run.pauses as int]
            == Err::<Status, HarnessError>(error),
    }
}

/// Runs the readiness gate over a record of probe outcomes, as far as the record goes.
pub fn replay_gate(outcomes: &Vec<ProbeOutcome>) -> (run: GateRun)
    ensures
        is_gate_run(outcomes@, run),
{
    let mut i: usize = 0;
    while i < outcomes.len()
        invariant
            i <= outcomes.len(),
            forall|j: int| 0 <= j < i ==> is_not_ready(#[trigger] outcomes@[j]),
        decreases outcomes.len() - i,
    {
        match gate_decide(outcomes[i]) {
            GateAction::Proceed => {
                return GateRun { polls: i + 1, pauses: i, end: GateEnd::Ready };
            },
            GateAction::Abort { error } => {
                return GateRun { polls: i + 1, pauses: i, end: GateEnd::Failed(error) };
            },
            GateAction::Retry { pause_secs: _ } => {
                i = i + 1;
            },
        }
    }
    GateRun { polls: i, pauses: i, end: GateEnd::Pending }
}

/// A record has one run only: what the readiness gate does is determined by what the
/// probes report.
pub proof fn lemma_gate_run_unique(outcomes: Seq<ProbeOutcome>, a: GateRun, b: GateRun)
    requires
        is_gate_run(outcomes, a),
        is_gate_run(outcomes, b),
    ensures
        a == b,
{
    if a.pauses < b.pauses {
        assert(is_not_ready(outcomes[a.pauses as int]));
    } else if b.pauses < a.pauses {
        assert(is_not_ready(outcomes[b.pauses as int]));
    }
}

/// While every probe reports not ready the readiness gate does not let its caller
/// through: it stays pending, and has paused once after each probe.
pub proof fn lemma_gate_holds_while_not_ready(outcomes: Seq<ProbeOutcome>, run: GateRun)
    requires
        is_gate_run(outcomes, run),
        forall|j: int| 0 <= j < outcomes.len() ==> is_not_ready(#[trigger] outcomes[j]),
    ensures
        run.end == GateEnd::Pending,
        run.polls == outcomes.len(),
        run.pauses == outcomes.len(),
{
    if run.end != GateEnd::Pending {
        assert(is_not_ready(outcomes[run.pauses as int]));
    }
}

/// The readiness gate lets its caller through at the first probe that reports ready,
/// without a pause after it: when the probes before `first` reported not
/// ready and probe `first` reports ready, the run ends ready after
/// `first + 1` probes and `first` pauses.
pub proof fn lemma_gate_opens_at_first_ready(outcomes: Seq<ProbeOutcome>, run: GateRun, first: int)
    requires
        is_gate_run(outcomes, run),
        0 <= first < outcomes.len(),
        is_ready(outcomes[first]),
        forall|j: int| 0 <= j < first ==> is_not_ready(#[trigger] outcomes[j]),
    ensures
        run.end == GateEnd::Ready,
        run.polls == first + 1,
        run.pauses == first,
{
    if run.pauses < first {
        assert(is_not_ready(outcomes[run.pauses as int]));
    } else if run.pauses > first {
        assert(is_not_ready(outcomes[first]));
    }
}

/// The readiness gate never lets its caller through on anything but a probe that
/// reported ready: a run that ends ready ends on such a probe, and every
/// probe before it reported not ready.
pub proof fn lemma_gate_opens_only_on_ready(outcomes: Seq<ProbeOutcome>, run: GateRun)
    requires
        is_gate_run(outcomes, run),
        run.end == GateEnd::Ready,
    ensures
        run.polls >= 1,
        is_ready(outcomes[run.polls - 1]),
        forall|j: int| 0 <= j < run.polls - 1 ==> is_not_ready(#[trigger] outcomes[j]),
{
}

} // verus!
