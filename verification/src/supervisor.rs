use vstd::prelude::*;
use crate::error::HarnessError;
use crate::gate::{gate_action, gate_decide, GateAction, ProbeOutcome};
use crate::node::NodeRole;
use crate::reply::{ExecReply, OpenReply};
use crate::status::Status;

verus! {

/// The two workers that the supervisor runs side by side.
#[derive(Clone, Copy, Debug, PartialEq, Eq, Structural)]
pub enum Worker {
    PrimaryMonitor,
    SecondaryWriter,
}

/// How the race between the two workers ended.
#[derive(Clone, Copy, Debug, PartialEq, Eq)]
pub struct Verdict {
    /// The worker that finished first.
    pub finished: Worker,
    /// The worker that is left behind, without a signal to it.
    pub abandoned: Worker,
    /// The result of the whole run: that of the worker that finished first.
    pub result: Result<(), HarnessError>,
}

impl Worker {
    /// The other of the two workers.
    pub open spec fn rival(self) -> Worker {
        match self {
            Worker::PrimaryMonitor => Worker::SecondaryWriter,
            Worker::SecondaryWriter => Worker::PrimaryMonitor,
        }
    }

    /// The other of the two workers.
    pub fn other(&self) -> (w: Worker)
        ensures
            w == self.rival(),
    {
        match self {
            Worker::PrimaryMonitor => Worker::SecondaryWriter,
            Worker::SecondaryWriter => Worker::PrimaryMonitor,
        }
    }
}

/// Settles the race: the first worker to finish decides the result of the
/// whole run, success or failure, and the other is abandoned.
pub fn settle(finished: Worker, result: Result<(), HarnessError>) -> (v: Verdict)
    ensures
        v.finished == finished,
        v.abandoned == finished.rival(),
        v.abandoned != v.finished,
        v.result == result,
{
    Verdict { finished, abandoned: finished.other(), result }
}

/// Where the supervisor stands: what it has asked for and is waiting on.
#[derive(Clone, Copy, Debug, PartialEq, Eq, Structural)]
pub enum Stage {
    /// Waiting for the connection to the primary.
    OpeningPrimary,
    /// Waiting for the shared table to be made sure of.
    Bootstrapping,
    /// Waiting for a probe of the primary.
    ProbingPrimary,
    /// Pausing before the next probe of the primary.
    PausingPrimary,
    /// Waiting for the connection to the secondary.
    OpeningSecondary,
    /// Both workers run; waiting for the first to finish.
    Racing,
    /// The run is over.
    Finished,
}

/// What the supervisor is told: the result of the work it last asked for.
#[derive(Clone, Copy, Debug, PartialEq, Eq)]
pub enum Notice {
    Opened(OpenReply),
    Bootstrapped(ExecReply),
    Probed(ProbeOutcome),
    Paused,
    WorkerDone(Worker, Result<(), HarnessError>),
}

/// What the supervisor asks for next.
#[derive(Clone, Copy, Debug, PartialEq, Eq)]
pub enum Command {
    /// Open the connection to this node.
    Open(NodeRole),
    /// Run the schema statement on the primary.
    Bootstrap,
    /// Probe the primary's readiness.
    ProbePrimary,
    /// Pause for so many seconds.
    Pause { secs: u64 },
    /// Start the monitor on the primary and the writer on the secondary,
    /// and wait for the first of them to finish.
    Launch,
    /// End the run with this result.
    Exit(Result<(), HarnessError>),
}

/// One step of the supervisor: the stage it moves to and what it asks for.
#[derive(Clone, Copy, Debug, PartialEq, Eq)]
pub struct Turn {
    pub stage: Stage,
    pub command: Command,
}

/// The turn that ends the run with an error.
pub open spec fn fail_turn(error: HarnessError) -> Turn {
    Turn { stage: Stage::Finished, command: Command::Exit(Err(error)) }
}

/// The notice answers what the stage waits on.
pub open spec fn expects(stage: Stage, notice: Notice) -> bool {
    match stage {
        Stage::OpeningPrimary => notice is Opened,
        Stage::Bootstrapping => notice is Bootstrapped,
        Stage::ProbingPrimary => notice is Probed,
        Stage::PausingPrimary => notice is Paused,
        Stage::OpeningSecondary => notice is Opened,
        Stage::Racing => notice is WorkerDone,
        Stage::Finished => false,
    }
}

/// The notice reports a failure: a connection that did not open, a schema
/// statement that failed, a probe that failed, or a worker that ended with
/// an error.
pub open spec fn reports_failure(notice: Notice) -> bool {
    match notice {
        Notice::Opened(reply) => reply == OpenReply::Failed,
        Notice::Bootstrapped(reply) => reply == ExecReply::Failed,
        Notice::Probed(outcome) => outcome is Err,
        Notice::Paused => false,
        Notice::WorkerDone(_, result) => result is Err,
    }
}

/// The supervisor's rule. It opens the primary, makes sure of the shared
/// table, polls the primary until it reports ready, opens the secondary and
/// launches the two workers; the first worker to finish ends the run with
/// its result. Any failure on the way ends the run at once with its error.
/// A notice that does not answer what the stage waits on has no turn.
pub open spec fn supervisor_next(stage: Stage, notice: Notice) -> Option<Turn> {
    match (stage, notice) {
        (Stage::OpeningPrimary, Notice::Opened(OpenReply::Opened)) => Some(
            Turn { stage: Stage::Bootstrapping, command: Command::Bootstrap },
        ),
        (Stage::OpeningPrimary, Notice::Opened(OpenReply::Failed)) => Some(
            fail_turn(HarnessError::Connection),
        ),
        (Stage::Bootstrapping, Notice::Bootstrapped(ExecReply::Done)) => Some(
            Turn { stage: Stage::ProbingPrimary, command: Command::ProbePrimary },
        ),
        (Stage::Bootstrapping, Notice::Bootstrapped(ExecReply::Failed)) => Some(
            fail_turn(HarnessError::Query),
        ),
        (Stage::ProbingPrimary, Notice::Probed(outcome)) => Some(
            match gate_action(outcome) {
                GateAction::Proceed => Turn {
                    stage: Stage::OpeningSecondary,
                    command: Command::Open(NodeRole::Secondary),
                },
                GateAction::Retry { pause_secs } => Turn {
                    stage: Stage::PausingPrimary,
                    command: Command::Pause { secs: pause_secs },
                },
                GateAction::Abort { error } => fail_turn(error),
            },
        ),
        (Stage::PausingPrimary, Notice::Paused) => Some(
            Turn { stage: Stage::ProbingPrimary, command: Command::ProbePrimary },
        ),
        (Stage::OpeningSecondary, Notice::Opened(OpenReply::Opened)) => Some(
            Turn { stage: Stage::Racing, command: Command::Launch },
        ),
        (Stage::OpeningSecondary, Notice::Opened(OpenReply::Failed)) => Some(
            fail_turn(HarnessError::Connection),
        ),
        (Stage::Racing, Notice::WorkerDone(_, result)) => Some(
            Turn { stage: Stage::Finished, command: Command::Exit(result) },
        ),
        _ => None,
    }
}

/// How the supervisor starts: by opening the primary.
pub fn supervisor_start() -> (turn: Turn)
    ensures
        turn == (Turn { stage: Stage::OpeningPrimary, command: Command::Open(NodeRole::Primary) }),
{
    Turn { stage: Stage::OpeningPrimary, command: Command::Open(NodeRole::Primary) }
}

fn fail(error: HarnessError) -> (turn: Turn)
    ensures
        turn == fail_turn(error),
{
    Turn { stage: Stage::Finished, command: Command::Exit(Err(error)) }
}

/// Takes one step of the supervisor.
pub fn supervisor_step(stage: Stage, notice: Notice) -> (turn: Option<Turn>)
    ensures
        turn == supervisor_next(stage, notice),
        turn is Some <==> expects(stage, notice),
{
    match stage {
        Stage::OpeningPrimary => match notice {
            Notice::Opened(OpenReply::Opened) => Some(
                Turn { stage: Stage::Bootstrapping, command: Command::Bootstrap },
            ),
            Notice::Opened(OpenReply::Failed) => Some(fail(HarnessError::Connection)),
            _ => None,
        },
        Stage::Bootstrapping => match notice {
            Notice::Bootstrapped(ExecReply::Done) => Some(
                Turn { stage: Stage::ProbingPrimary, command: Command::ProbePrimary },
            ),
            Notice::Bootstrapped(ExecReply::Failed) => Some(fail(HarnessError::Query)),
            _ => None,
        },
        Stage::ProbingPrimary => match notice {
            Notice::Probed(outcome) => match gate_decide(outcome) {
                GateAction::Proceed => Some(
                    Turn {
                        stage: Stage::OpeningSecondary,
                        command: Command::Open(NodeRole::Secondary),
                    },
                ),
                GateAction::Retry { pause_secs } => Some(
                    Turn { stage: Stage::PausingPrimary, command: Command::Pause { secs: pause_secs } },
                ),
                GateAction::Abort { error } => Some(fail(error)),
            },
            _ => None,
        },
        Stage::PausingPrimary => match notice {
            Notice::Paused => Some(
                Turn { stage: Stage::ProbingPrimary, command: Command::ProbePrimary },
            ),
            _ => None,
        },
        Stage::OpeningSecondary => match notice {
            Notice::Opened(OpenReply::Opened) => Some(
                Turn { stage: Stage::Racing, command: Command::Launch },
            ),
            Notice::Opened(OpenReply::Failed) => Some(fail(HarnessError::Connection)),
            _ => None,
        },
        Stage::Racing => match notice {
            Notice::WorkerDone(worker, result) => {
                let verdict = settle(worker, result);
                Some(Turn { stage: Stage::Finished, command: Command::Exit(verdict.result) })
            },
            _ => None,
        },
        Stage::Finished => None,
    }
}

/// No restart: a notice of failure ends the run at once, with an error.
pub proof fn lemma_failure_ends_run(stage: Stage, notice: Notice)
    requires
        expects(stage, notice),
        reports_failure(notice),
    ensures
        supervisor_next(stage, notice) matches Some(turn) && turn.stage == Stage::Finished
            && turn.command matches Command::Exit(Err(_)),
{
}

/// The secondary is opened only once the primary has reported ready: the
/// one step that asks for it is the step on a probe of the primary that
/// reports ready.
pub proof fn lemma_secondary_waits_for_primary(stage: Stage, notice: Notice)
    ensures
        (supervisor_next(stage, notice) matches Some(turn) && turn.command == Command::Open(
            NodeRole::Secondary,
        )) <==> (stage == Stage::ProbingPrimary && notice == Notice::Probed(
            Ok(Status { db_is_ready: true }),
        )),
{
}

/// The primary has passed its readiness gate.
pub open spec fn primary_passed(stage: Stage) -> bool {
    stage == Stage::OpeningSecondary || stage == Stage::Racing || stage == Stage::Finished
}

/// Once ready, taken as ready: after the primary has passed its readiness
/// gate the supervisor never asks for a probe of it again, and never goes
/// back to a stage before that.
pub proof fn lemma_primary_not_probed_again(stage: Stage, notice: Notice)
    requires
        primary_passed(stage),
    ensures
        match supervisor_next(stage, notice) {
            Some(turn) => turn.command != Command::ProbePrimary && primary_passed(turn.stage),
            None => !expects(stage, notice),
        },
{
}

/// The race is decided by the first worker to finish: its result, success
/// or failure, is the result of the run, whichever worker it is.
pub proof fn lemma_first_finisher_decides(worker: Worker, result: Result<(), HarnessError>)
    ensures
        supervisor_next(Stage::Racing, Notice::WorkerDone(worker, result)) == Some(
            Turn { stage: Stage::Finished, command: Command::Exit(result) },
        ),
{
}

} // verus!
