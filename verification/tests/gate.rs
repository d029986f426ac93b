use replica_monitor::error::HarnessError;
use replica_monitor::gate::{gate_decide, replay_gate, GateAction, GateEnd, GateRun, POLL_INTERVAL_SECS};
use replica_monitor::status::{decode_status, Status};

const READY: Result<Status, HarnessError> = Ok(Status { db_is_ready: true });
const NOT_READY: Result<Status, HarnessError> = Ok(Status { db_is_ready: false });

#[test]
fn gate_proceeds_on_ready() {
    assert_eq!(gate_decide(READY), GateAction::Proceed);
}

#[test]
fn gate_retries_after_one_second_on_not_ready() {
    assert_eq!(gate_decide(NOT_READY), GateAction::Retry { pause_secs: 1 });
    assert_eq!(POLL_INTERVAL_SECS, 1);
}

#[test]
fn gate_aborts_on_each_error() {
    assert_eq!(
        gate_decide(Err(HarnessError::Decode)),
        GateAction::Abort { error: HarnessError::Decode }
    );
    assert_eq!(
        gate_decide(Err(HarnessError::Query)),
        GateAction::Abort { error: HarnessError::Query }
    );
    assert_eq!(
        gate_decide(Err(HarnessError::Connection)),
        GateAction::Abort { error: HarnessError::Connection }
    );
}

#[test]
fn gate_loops_once_when_not_ready_then_ready() {
    let first = decode_status("{\"db_is_ready\": false}");
    let second = decode_status("{\"db_is_ready\": true}");
    assert_eq!(first, NOT_READY);
    assert_eq!(second, READY);
    let run = replay_gate(&vec![first, second]);
    assert_eq!(run, GateRun { polls: 2, pauses: 1, end: GateEnd::Ready });
}

#[test]
fn gate_opens_at_once_when_first_probe_is_ready() {
    let run = replay_gate(&vec![READY, NOT_READY, READY]);
    assert_eq!(run, GateRun { polls: 1, pauses: 0, end: GateEnd::Ready });
}

#[test]
fn gate_stays_pending_while_not_ready() {
    let run = replay_gate(&vec![NOT_READY; 5]);
    assert_eq!(run, GateRun { polls: 5, pauses: 5, end: GateEnd::Pending });
    let run = replay_gate(&Vec::new());
    assert_eq!(run, GateRun { polls: 0, pauses: 0, end: GateEnd::Pending });
}

#[test]
fn gate_opens_at_the_first_ready_probe() {
    let run = replay_gate(&vec![NOT_READY, NOT_READY, NOT_READY, READY, READY]);
    assert_eq!(run, GateRun { polls: 4, pauses: 3, end: GateEnd::Ready });
}

#[test]
fn gate_does_not_retry_an_error() {
    let run = replay_gate(&vec![NOT_READY, Err(HarnessError::Decode), READY]);
    assert_eq!(run, GateRun { polls: 2, pauses: 1, end: GateEnd::Failed(HarnessError::Decode) });
    let absent = decode_status("{}");
    let run = replay_gate(&vec![absent, READY]);
    assert_eq!(run, GateRun { polls: 1, pauses: 0, end: GateEnd::Failed(HarnessError::Decode) });
}
