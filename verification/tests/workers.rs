use replica_monitor::error::HarnessError;
use replica_monitor::monitor::monitor_cycle;
use replica_monitor::node::{
    connection_uri, count_query, diagnostic_query, insert_statement, schema_statement, NodeRole,
};
use replica_monitor::reply::{ExecReply, OpenReply, QueryReply};
use replica_monitor::status::Status;
use replica_monitor::supervisor::{
    settle, supervisor_start, supervisor_step, Command, Notice, Stage, Turn, Worker,
};
use replica_monitor::writer::{
    insert_notice, writer_start, writer_step, WriterAction, WriterEvent, WriterState, WriterStep,
};

const READY: Result<Status, HarnessError> = Ok(Status { db_is_ready: true });
const NOT_READY: Result<Status, HarnessError> = Ok(Status { db_is_ready: false });

#[test]
fn monitor_reports_the_count_and_pauses() {
    let cycle = monitor_cycle("primary", QueryReply::Row(3)).unwrap();
    assert_eq!(cycle.line, "primary: 3");
    assert_eq!(cycle.pause_secs, 1);
    let cycle = monitor_cycle("primary", QueryReply::Row(0)).unwrap();
    assert_eq!(cycle.line, "primary: 0");
    let cycle = monitor_cycle("primary", QueryReply::Row(120)).unwrap();
    assert_eq!(cycle.line, "primary: 120");
}

#[test]
fn monitor_ends_on_a_failed_count() {
    assert_eq!(monitor_cycle("primary", QueryReply::Failed).unwrap_err(), HarnessError::Query);
    assert_eq!(monitor_cycle("primary", QueryReply::Empty).unwrap_err(), HarnessError::Query);
}

#[test]
fn writer_starts_behind_the_gate() {
    assert_eq!(
        writer_start(),
        WriterStep { state: WriterState::AwaitProbe, action: WriterAction::Probe }
    );
}

#[test]
fn writer_waits_then_inserts_every_second() {
    let mut state = writer_start().state;
    let script = [
        (WriterEvent::Probed(NOT_READY), WriterState::AwaitGatePause, WriterAction::Pause { secs: 1 }),
        (WriterEvent::Paused, WriterState::AwaitProbe, WriterAction::Probe),
        (WriterEvent::Probed(READY), WriterState::AwaitInsert, WriterAction::Insert),
        (
            WriterEvent::Inserted(ExecReply::Done),
            WriterState::AwaitWritePause,
            WriterAction::Pause { secs: 1 },
        ),
        (WriterEvent::Paused, WriterState::AwaitInsert, WriterAction::Insert),
        (
            WriterEvent::Inserted(ExecReply::Done),
            WriterState::AwaitWritePause,
            WriterAction::Pause { secs: 1 },
        ),
    ];
    for (event, next, action) in script {
        let step = writer_step(state, event).unwrap();
        assert_eq!(step, WriterStep { state: next, action });
        state = step.state;
    }
}

#[test]
fn writer_stops_on_a_failed_probe_or_insert() {
    assert_eq!(
        writer_step(WriterState::AwaitProbe, WriterEvent::Probed(Err(HarnessError::Decode))),
        Some(WriterStep {
            state: WriterState::Stopped,
            action: WriterAction::Abort { error: HarnessError::Decode }
        })
    );
    assert_eq!(
        writer_step(WriterState::AwaitInsert, WriterEvent::Inserted(ExecReply::Failed)),
        Some(WriterStep {
            state: WriterState::Stopped,
            action: WriterAction::Abort { error: HarnessError::Query }
        })
    );
}

#[test]
fn writer_has_no_step_for_an_event_it_did_not_ask_for() {
    assert_eq!(writer_step(WriterState::AwaitProbe, WriterEvent::Paused), None);
    assert_eq!(writer_step(WriterState::AwaitGatePause, WriterEvent::Probed(READY)), None);
    assert_eq!(writer_step(WriterState::AwaitInsert, WriterEvent::Probed(READY)), None);
    assert_eq!(
        writer_step(WriterState::AwaitWritePause, WriterEvent::Inserted(ExecReply::Done)),
        None
    );
    assert_eq!(writer_step(WriterState::Stopped, WriterEvent::Paused), None);
}

#[test]
fn writer_never_probes_past_the_gate() {
    let events = [
        WriterEvent::Probed(READY),
        WriterEvent::Probed(NOT_READY),
        WriterEvent::Probed(Err(HarnessError::Query)),
        WriterEvent::Paused,
        WriterEvent::Inserted(ExecReply::Done),
        WriterEvent::Inserted(ExecReply::Failed),
    ];
    for state in [WriterState::AwaitInsert, WriterState::AwaitWritePause] {
        for event in events {
            if let Some(step) = writer_step(state, event) {
                assert_ne!(step.action, WriterAction::Probe);
                assert_ne!(step.state, WriterState::AwaitProbe);
                assert_ne!(step.state, WriterState::AwaitGatePause);
            }
        }
    }
}

#[test]
fn writer_announces_each_insert() {
    assert_eq!(insert_notice("secondary"), "secondary: insert");
}

#[test]
fn supervisor_runs_the_startup_in_order() {
    let start = supervisor_start();
    assert_eq!(
        start,
        Turn { stage: Stage::OpeningPrimary, command: Command::Open(NodeRole::Primary) }
    );
    let script = [
        (Notice::Opened(OpenReply::Opened), Stage::Bootstrapping, Command::Bootstrap),
        (Notice::Bootstrapped(ExecReply::Done), Stage::ProbingPrimary, Command::ProbePrimary),
        (Notice::Probed(NOT_READY), Stage::PausingPrimary, Command::Pause { secs: 1 }),
        (Notice::Paused, Stage::ProbingPrimary, Command::ProbePrimary),
        (Notice::Probed(READY), Stage::OpeningSecondary, Command::Open(NodeRole::Secondary)),
        (Notice::Opened(OpenReply::Opened), Stage::Racing, Command::Launch),
        (Notice::WorkerDone(Worker::SecondaryWriter, Ok(())), Stage::Finished, Command::Exit(Ok(()))),
    ];
    let mut stage = start.stage;
    for (notice, next, command) in script {
        let turn = supervisor_step(stage, notice).unwrap();
        assert_eq!(turn, Turn { stage: next, command });
        stage = turn.stage;
    }
    assert_eq!(supervisor_step(stage, Notice::Paused), None);
}

#[test]
fn supervisor_ends_the_run_on_each_failure() {
    let failed = |error| Some(Turn { stage: Stage::Finished, command: Command::Exit(Err(error)) });
    assert_eq!(
        supervisor_step(Stage::OpeningPrimary, Notice::Opened(OpenReply::Failed)),
        failed(HarnessError::Connection)
    );
    assert_eq!(
        supervisor_step(Stage::Bootstrapping, Notice::Bootstrapped(ExecReply::Failed)),
        failed(HarnessError::Query)
    );
    assert_eq!(
        supervisor_step(Stage::ProbingPrimary, Notice::Probed(Err(HarnessError::Decode))),
        failed(HarnessError::Decode)
    );
    assert_eq!(
        supervisor_step(Stage::OpeningSecondary, Notice::Opened(OpenReply::Failed)),
        failed(HarnessError::Connection)
    );
    assert_eq!(
        supervisor_step(
            Stage::Racing,
            Notice::WorkerDone(Worker::PrimaryMonitor, Err(HarnessError::Query))
        ),
        failed(HarnessError::Query)
    );
}

#[test]
fn supervisor_has_no_turn_for_an_unexpected_notice() {
    assert_eq!(supervisor_step(Stage::OpeningPrimary, Notice::Paused), None);
    assert_eq!(supervisor_step(Stage::Bootstrapping, Notice::Opened(OpenReply::Opened)), None);
    assert_eq!(supervisor_step(Stage::PausingPrimary, Notice::Probed(READY)), None);
    assert_eq!(supervisor_step(Stage::Racing, Notice::Probed(READY)), None);
    assert_eq!(
        supervisor_step(Stage::Finished, Notice::WorkerDone(Worker::PrimaryMonitor, Ok(()))),
        None
    );
}

#[test]
fn race_goes_to_the_first_finisher() {
    let verdict = settle(Worker::PrimaryMonitor, Err(HarnessError::Query));
    assert_eq!(verdict.finished, Worker::PrimaryMonitor);
    assert_eq!(verdict.abandoned, Worker::SecondaryWriter);
    assert_eq!(verdict.result, Err(HarnessError::Query));
    let verdict = settle(Worker::SecondaryWriter, Ok(()));
    assert_eq!(verdict.abandoned, Worker::PrimaryMonitor);
    assert_eq!(verdict.result, Ok(()));
    assert_eq!(Worker::PrimaryMonitor.other(), Worker::SecondaryWriter);
}

#[test]
fn addresses_carry_role_and_endpoint() {
    assert_eq!(
        connection_uri(NodeRole::Primary, "tcp://127.0.0.1:6667"),
        "file:primary?node=primary&bind=tcp://127.0.0.1:6667"
    );
    assert_eq!(
        connection_uri(NodeRole::Secondary, "tcp://127.0.0.1:6667"),
        "file:secondary?node=secondary&connect=tcp://127.0.0.1:6667"
    );
    assert_eq!(NodeRole::Primary.name(), "primary");
    assert_eq!(NodeRole::Secondary.name(), "secondary");
}

#[test]
fn statements_are_the_fixed_texts() {
    assert_eq!(schema_statement(), "CREATE TABLE IF NOT EXISTS test (key string, value string)");
    assert_eq!(
        insert_statement(),
        "INSERT INTO test VALUES (CURRENT_TIMESTAMP, CURRENT_TIMESTAMP)"
    );
    assert_eq!(count_query(), "SELECT COUNT(*) FROM test");
    assert_eq!(diagnostic_query(), "PRAGMA sync_status");
}
