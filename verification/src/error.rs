use vstd::prelude::*;

verus! {

/// Why a step of the harness could not be carried out. None of these is
/// retried: each ends the worker that met it.
#[derive(Clone, Copy, Debug, PartialEq, Eq, Structural)]
pub enum HarnessError {
    /// A connection to a node could not be opened.
    Connection,
    /// A statement or query failed, or a query that must yield a row yielded none.
    Query,
    /// The readiness payload did not have the expected structure.
    Decode,
}

impl HarnessError {
    /// The text that describes the error to a person.
    pub open spec fn label(self) -> Seq<char> {
        match self {
            HarnessError::Connection => "connection error"@,
            HarnessError::Query => "query error"@,
            HarnessError::Decode => "decode error"@,
        }
    }

    /// Renders the error for a diagnostic message.
    pub fn message(&self) -> (r: String)
        ensures
            r@ == self.label(),
    {
        match self {
            HarnessError::Connection => String::from_str("connection error"),
            HarnessError::Query => String::from_str("query error"),
            HarnessError::Decode => String::from_str("decode error"),
        }
    }
}

} // verus!
