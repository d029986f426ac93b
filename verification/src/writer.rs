use vstd::prelude::*;
use crate::error::HarnessError;
use crate::gate::{gate_action, gate_decide, GateAction, ProbeOutcome, POLL_INTERVAL_SECS};
use crate::reply::ExecReply;
use crate::status::Status;
use crate::report::{make_line, report_line};

verus! {

/// Where the writer on the secondary stands: what it has asked for and is
/// waiting on.
#[derive(Clone, Copy, Debug, PartialEq, Eq, Structural)]
pub enum WriterState {
    /// Behind the readiness gate, waiting for a probe of the node.
    AwaitProbe,
    /// Behind the readiness gate, pausing before the next probe.
    AwaitGatePause,
    /// Past the readiness gate, waiting for an insert to finish.
    AwaitInsert,
    /// Past the readiness gate, pausing before the next insert.
    AwaitWritePause,
    /// Ended by an error.
    Stopped,
}

/// What the writer is told: the result of the work it last asked for.
#[derive(Clone, Copy, Debug, PartialEq, Eq)]
pub enum WriterEvent {
    Probed(ProbeOutcome),
    Paused,
    Inserted(ExecReply),
}

/// What the writer asks for next.
#[derive(Clone, Copy, Debug, PartialEq, Eq, Structural)]
pub enum WriterAction {
    /// Probe the node's readiness.
    Probe,
    /// Pause for so many seconds.
    Pause { secs: u64 },
    /// Announce and insert one row.
    Insert,
    /// End with this error.
    Abort { error: HarnessError },
}

/// One step of the writer: the state it moves to and what it asks for.
#[derive(Clone, Copy, Debug, PartialEq, Eq, Structural)]
pub struct WriterStep {
    pub state: WriterState,
    pub action: WriterAction,
}

/// The writer is past its gate.
pub open spec fn past_gate(state: WriterState) -> bool {
    state == WriterState::AwaitInsert || state == WriterState::AwaitWritePause
}

/// The event answers what the state waits on.
pub open spec fn answers(state: WriterState, event: WriterEvent) -> bool {
    match state {
        WriterState::AwaitProbe => event is Probed,
        WriterState::AwaitGatePause => event is Paused,
        WriterState::AwaitInsert => event is Inserted,
        WriterState::AwaitWritePause => event is Paused,
        WriterState::Stopped => false,
    }
}

/// The writer's rule. Behind the readiness gate it probes until the node reports
/// ready, pausing one interval after each probe that reports not ready; past
/// the readiness gate it inserts one row per cycle, pausing one interval after each
/// insert. A failed probe or insert ends it. An event that does not answer
/// what the state waits on has no step.
pub open spec fn writer_next(state: WriterState, event: WriterEvent) -> Option<WriterStep> {
    match (state, event) {
        (WriterState::AwaitProbe, WriterEvent::Probed(outcome)) => Some(
            match gate_action(outcome) {
                GateAction::Proceed => WriterStep {
                    state: WriterState::AwaitInsert,
                    action: WriterAction::Insert,
                },
                GateAction::Retry { pause_secs } => WriterStep {
                    state: WriterState::AwaitGatePause,
                    action: WriterAction::Pause { secs: pause_secs },
                },
                GateAction::Abort { error } => WriterStep {
                    state: WriterState::Stopped,
                    action: WriterAction::Abort { error },
                },
            },
        ),
        (WriterState::AwaitGatePause, WriterEvent::Paused) => Some(
            WriterStep { state: WriterState::AwaitProbe, action: WriterAction::Probe },
        ),
        (WriterState::AwaitInsert, WriterEvent::Inserted(ExecReply::Done)) => Some(
            WriterStep {
                state: WriterState::AwaitWritePause,
                action: WriterAction::Pause { secs: POLL_INTERVAL_SECS },
            },
        ),
        (WriterState::AwaitInsert, WriterEvent::Inserted(ExecReply::Failed)) => Some(
            WriterStep {
                state: WriterState::Stopped,
                action: WriterAction::Abort { error: HarnessError::Query },
            },
        ),
        (WriterState::AwaitWritePause, WriterEvent::Paused) => Some(
            WriterStep { state: WriterState::AwaitInsert, action: WriterAction::Insert },
        ),
        _ => None,
    }
}

/// How the writer starts: behind the readiness gate, asking for a probe.
pub fn writer_start() -> (step: WriterStep)
    ensures
        step == (WriterStep { state: WriterState::AwaitProbe, action: WriterAction::Probe }),
{
    WriterStep { state: WriterState::AwaitProbe, action: WriterAction::Probe }
}

/// Takes one step of the writer.
pub fn writer_step(state: WriterState, event: WriterEvent) -> (step: Option<WriterStep>)
    ensures
        step == writer_next(state, event),
        step is Some <==> answers(state, event),
{
    match state {
        WriterState::AwaitProbe => match event {
            WriterEvent::Probed(outcome) => match gate_decide(outcome) {
                GateAction::Proceed => Some(
                    WriterStep { state: WriterState::AwaitInsert, action: WriterAction::Insert },
                ),
                GateAction::Retry { pause_secs } => Some(
                    WriterStep {
                        state: WriterState::AwaitGatePause,
                        action: WriterAction::Pause { secs: pause_secs },
                    },
                ),
                GateAction::Abort { error } => Some(
                    WriterStep { state: WriterState::Stopped, action: WriterAction::Abort { error } },
                ),
            },
            _ => None,
        },
        WriterState::AwaitGatePause => match event {
            WriterEvent::Paused => Some(
                WriterStep { state: WriterState::AwaitProbe, action: WriterAction::Probe },
            ),
            _ => None,
        },
        WriterState::AwaitInsert => match event {
            WriterEvent::Inserted(ExecReply::Done) => Some(
                WriterStep {
                    state: WriterState::AwaitWritePause,
                    action: WriterAction::Pause { secs: POLL_INTERVAL_SECS },
                },
            ),
            WriterEvent::Inserted(ExecReply::Failed) => Some(
                WriterStep {
                    state: WriterState::Stopped,
                    action: WriterAction::Abort { error: HarnessError::Query },
                },
            ),
            _ => None,
        },
        WriterState::AwaitWritePause => match event {
            WriterEvent::Paused => Some(
                WriterStep { state: WriterState::AwaitInsert, action: WriterAction::Insert },
            ),
            _ => None,
        },
        WriterState::Stopped => None,
    }
}

/// The line that announces an insert on the node `name`.
pub fn insert_notice(name: &str) -> (line: String)
    ensures
        line@ == report_line(name@, "insert"@),
{
    make_line(name, "insert")
}

/// The state that the writer is in after the events `events`, taken in
/// order from `state`; `None` where one of them does not answer the state
/// that it meets.
pub open spec fn writer_after(state: WriterState, events: Seq<WriterEvent>) -> Option<WriterState>
    decreases events.len(),
{
    if events.len() == 0 {
        Some(state)
    } else {
        match writer_next(state, events[0]) {
            Some(step) => writer_after(step.state, events.subrange(1, events.len() as int)),
            None => None,
        }
    }
}

/// Once ready, taken as ready: a writer past its gate never asks for a
/// probe again, and stays past the readiness gate unless an error ends it.
pub proof fn lemma_writer_never_probes_past_gate(state: WriterState, event: WriterEvent)
    requires
        past_gate(state),
    ensures
        match writer_next(state, event) {
            Some(step) => step.action != WriterAction::Probe && (past_gate(step.state)
                || step.state == WriterState::Stopped),
            None => !answers(state, event),
        },
{
}

/// The same over any run of events: from a state past the readiness gate, every state
/// reached is past the readiness gate or stopped.
pub proof fn lemma_writer_stays_past_gate(state: WriterState, events: Seq<WriterEvent>)
    requires
        past_gate(state) || state == WriterState::Stopped,
    ensures
        match writer_after(state, events) {
            Some(end) => past_gate(end) || end == WriterState::Stopped,
            None => true,
        },
    decreases events.len(),
{
    if events.len() > 0 {
        match writer_next(state, events[0]) {
            Some(step) => {
                lemma_writer_stays_past_gate(step.state, events.subrange(1, events.len() as int));
            },
            None => {},
        }
    }
}

/// The writer passes its gate on a probe that reports ready and on nothing
/// else, and then inserts at once, without a pause.
pub proof fn lemma_writer_passes_gate_on_ready(state: WriterState, event: WriterEvent)
    requires
        !past_gate(state),
    ensures
        match writer_next(state, event) {
            Some(step) => past_gate(step.state) <==> (state == WriterState::AwaitProbe
                && event == WriterEvent::Probed(Ok(Status { db_is_ready: true }))
                && step.action == WriterAction::Insert),
            None => true,
        },
{
}

/// The writer has no end of its own: a step stops it only on a failed probe
/// or a failed insert.
pub proof fn lemma_writer_stops_only_on_error(state: WriterState, event: WriterEvent)
    ensures
        match writer_next(state, event) {
            Some(step) => step.state == WriterState::Stopped <==> (event matches WriterEvent::Probed(
                Err(_),
            ) || event == WriterEvent::Inserted(ExecReply::Failed)),
            None => true,
        },
{
}

} // verus!
