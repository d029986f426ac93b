use vstd::prelude::*;
use crate::error::HarnessError;
use crate::gate::POLL_INTERVAL_SECS;
use crate::report::{decimal, make_line, render_count, report_line};
use crate::reply::QueryReply;

verus! {

/// One cycle of the monitor on the primary: the line to print and the pause
/// that follows it.
#[derive(Debug)]
pub struct MonitorCycle {
    pub line: String,
    pub pause_secs: u64,
}

/// What a cycle of the monitor on the node `name` comes to, given the reply
/// to the row count: the line and the pause, or a query error.
pub open spec fn monitor_outcome(name: Seq<char>, reply: QueryReply<i32>) -> Result<
    (Seq<char>, u64),
    HarnessError,
> {
    match reply {
        QueryReply::Row(count) => Ok(
            (report_line(name, decimal(count as int)), POLL_INTERVAL_SECS),
        ),
        QueryReply::Empty => Err(HarnessError::Query),
        QueryReply::Failed => Err(HarnessError::Query),
    }
}

/// The cycle taken by its view.
pub open spec fn cycle_view(r: Result<MonitorCycle, HarnessError>) -> Result<
    (Seq<char>, u64),
    HarnessError,
> {
    match r {
        Ok(cycle) => Ok((cycle.line@, cycle.pause_secs)),
        Err(e) => Err(e),
    }
}

/// Takes one cycle of the monitor from the reply to the row count: a count
/// is reported and followed by a pause of one interval, anything else ends
/// the monitor with a query error.
pub fn monitor_cycle(name: &str, reply: QueryReply<i32>) -> (r: Result<MonitorCycle, HarnessError>)
    ensures
        cycle_view(r) == monitor_outcome(name@, reply),
{
    match reply {
        QueryReply::Row(count) => {
            let value = render_count(count);
            let line = make_line(name, value.as_str());
            Ok(MonitorCycle { line, pause_secs: POLL_INTERVAL_SECS })
        },
        QueryReply::Empty => Err(HarnessError::Query),
        QueryReply::Failed => Err(HarnessError::Query),
    }
}

} // verus!
