use vstd::prelude::*;
use crate::error::HarnessError;
use crate::reply::QueryReply;
use crate::report::{flag_text, make_line, render_flag, report_line};

verus! {

/// What a node reports about itself. Other members of the payload are not
/// modelled.
#[derive(Clone, Copy, Debug, PartialEq, Eq, Structural)]
pub struct Status {
    pub db_is_ready: bool,
}

/// A decoded status together with the line that reports it.
#[derive(Debug)]
pub struct ProbeReport {
    pub status: Status,
    pub line: String,
}

/// `serde_json::Error`, the error of `serde_json::from_str`, as an opaque
/// type: nothing is claimed of what it holds, and the library maps it to
/// `HarnessError::Decode`.
#[verifier::external_type_specification]
#[verifier::external_body]
pub struct ExJsonError(serde_json::Error);

/// The boolean member `key` of the JSON document `text`, as `serde_json`
/// reads it: `None` where `text` is not one JSON document, `Some(None)` where
/// the document is not an object, has no member `key`, or has one that is not
/// a boolean, and `Some(Some(b))` where the member is the boolean `b`.
pub uninterp spec fn json_bool_member(text: Seq<char>, key: Seq<char>) -> Option<Option<bool>>;

/// Calls `serde_json::from_str` to parse `text` into a `serde_json::Value`,
/// then `Value::get` with `key` and `Value::as_bool` on what it finds. The
/// contract claims only that the outcome is a function of the two texts: an
/// error stands for `None` of `json_bool_member`, a value for `Some` of it.
#[verifier::external_body]
fn read_bool_member(text: &str, key: &str) -> (r: Result<Option<bool>, serde_json::Error>)
    ensures
        json_bool_member(text@, key@) == (match r {
            Ok(member) => Some(member),
            Err(_) => None::<Option<bool>>,
        }),
{
    let document: serde_json::Value = serde_json::from_str(text)?;
    match document.get(key) {
        Some(member) => Ok(member.as_bool()),
        None => Ok(None),
    }
}

/// The status that a payload stands for, given what was read of its
/// `db_is_ready` member. Only a boolean member decodes; everything else is a
/// decode failure, never "not ready".
pub open spec fn status_of_member(member: Option<Option<bool>>) -> Result<Status, HarnessError> {
    match member {
        Some(Some(flag)) => Ok(Status { db_is_ready: flag }),
        _ => Err(HarnessError::Decode),
    }
}

/// The status that the payload `text` decodes to.
pub open spec fn decoded(text: Seq<char>) -> Result<Status, HarnessError> {
    status_of_member(json_bool_member(text, "db_is_ready"@))
}

/// Turns what was read of the `db_is_ready` member into a status.
pub fn interpret_member(member: Option<Option<bool>>) -> (r: Result<Status, HarnessError>)
    ensures
        r == status_of_member(member),
{
    match member {
        Some(Some(flag)) => Ok(Status { db_is_ready: flag }),
        _ => Err(HarnessError::Decode),
    }
}

/// Decodes a readiness payload: a JSON object with a boolean member
/// `db_is_ready`; further members are ignored.
pub fn decode_status(text: &str) -> (r: Result<Status, HarnessError>)
    ensures
        r == decoded(text@),
{
    match read_bool_member(text, "db_is_ready") {
        Ok(member) => interpret_member(Some(member)),
        Err(_) => interpret_member(None),
    }
}

/// What a probe of the node `name` comes to, given the reply to the
/// diagnostic query.
pub open spec fn probe_outcome(name: Seq<char>, reply: QueryReply<Seq<char>>) -> Result<
    (Status, Seq<char>),
    HarnessError,
> {
    match reply {
        QueryReply::Row(text) => match decoded(text) {
            Ok(status) => Ok((status, report_line(name, flag_text(status.db_is_ready)))),
            Err(e) => Err(e),
        },
        QueryReply::Empty => Err(HarnessError::Query),
        QueryReply::Failed => Err(HarnessError::Query),
    }
}

/// The reply with its text taken by its view.
pub open spec fn reply_view(reply: QueryReply<String>) -> QueryReply<Seq<char>> {
    match reply {
        QueryReply::Row(text) => QueryReply::Row(text@),
        QueryReply::Empty => QueryReply::Empty,
        QueryReply::Failed => QueryReply::Failed,
    }
}

/// The report taken by its view.
pub open spec fn report_view(r: Result<ProbeReport, HarnessError>) -> Result<
    (Status, Seq<char>),
    HarnessError,
> {
    match r {
        Ok(report) => Ok((report.status, report.line@)),
        Err(e) => Err(e),
    }
}

/// Probes a node from the reply to its diagnostic query: a missing row or a
/// failed query is a query error, a row is decoded, and a decoded status
/// comes with the line that reports it.
pub fn probe(name: &str, reply: &QueryReply<String>) -> (r: Result<ProbeReport, HarnessError>)
    ensures
        report_view(r) == probe_outcome(name@, reply_view(*reply)),
{
    match reply {
        QueryReply::Row(text) => {
            match decode_status(text.as_str()) {
                Ok(status) => {
                    let value = render_flag(status.db_is_ready);
                    let line = make_line(name, value.as_str());
                    Ok(ProbeReport { status, line })
                },
                Err(e) => Err(e),
            }
        },
        QueryReply::Empty => Err(HarnessError::Query),
        QueryReply::Failed => Err(HarnessError::Query),
    }
}

} // verus!
