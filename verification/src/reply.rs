use vstd::prelude::*;

verus! {

/// What came back from a query that is expected to yield one row with one
/// column.
#[derive(Debug)]
pub enum QueryReply<T> {
    /// The first row's only column.
    Row(T),
    /// The query ran and yielded no row.
    Empty,
    /// The query could not be run.
    Failed,
}

/// What came back from a statement that yields no rows.
#[derive(Clone, Copy, Debug, PartialEq, Eq, Structural)]
pub enum ExecReply {
    Done,
    Failed,
}

/// What came back from opening a connection to a node.
#[derive(Clone, Copy, Debug, PartialEq, Eq, Structural)]
pub enum OpenReply {
    Opened,
    Failed,
}

} // verus!
