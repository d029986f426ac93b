use vstd::prelude::*;

verus! {

/// The part that a node plays in the replicated database.
#[derive(Clone, Copy, Debug, PartialEq, Eq, Structural)]
pub enum NodeRole {
    /// Binds an endpoint that the secondary connects to.
    Primary,
    /// Connects to the primary's endpoint.
    Secondary,
}

impl NodeRole {
    /// The node's name, which is also the name of its database.
    pub open spec fn name_text(self) -> Seq<char> {
        match self {
            NodeRole::Primary => "primary"@,
            NodeRole::Secondary => "secondary"@,
        }
    }

    /// The parameter that carries the endpoint: the primary binds, the
    /// secondary connects.
    pub open spec fn endpoint_key(self) -> Seq<char> {
        match self {
            NodeRole::Primary => "bind"@,
            NodeRole::Secondary => "connect"@,
        }
    }

    /// The node's name.
    pub fn name(&self) -> (r: &'static str)
        ensures
            r@ == self.name_text(),
    {
        match self {
            NodeRole::Primary => "primary",
            NodeRole::Secondary => "secondary",
        }
    }
}

/// The address of a node: `file:<name>?node=<name>&bind=<endpoint>` for the
/// primary, with `connect` in place of `bind` for the secondary.
pub open spec fn connection_text(role: NodeRole, endpoint: Seq<char>) -> Seq<char> {
    "file:"@ + role.name_text() + "?node="@ + role.name_text() + "&"@ + role.endpoint_key() + "="@
        + endpoint
}

/// Builds the address under which a node is opened.
pub fn connection_uri(role: NodeRole, endpoint: &str) -> (uri: String)
    ensures
        uri@ == connection_text(role, endpoint@),
{
    let mut uri = String::from_str("file:");
    uri.append(role.name());
    uri.append("?node=");
    uri.append(role.name());
    uri.append("&");
    match role {
        NodeRole::Primary => uri.append("bind"),
        NodeRole::Secondary => uri.append("connect"),
    }
    uri.append("=");
    uri.append(endpoint);
    uri
}

/// The statement that makes sure the shared table exists: two text columns,
/// no key, no constraint.
pub fn schema_statement() -> (sql: &'static str)
    ensures
        sql@ == "CREATE TABLE IF NOT EXISTS test (key string, value string)"@,
{
    "CREATE TABLE IF NOT EXISTS test (key string, value string)"
}

/// The statement that inserts one row, both columns set to the time of the
/// insert.
pub fn insert_statement() -> (sql: &'static str)
    ensures
        sql@ == "INSERT INTO test VALUES (CURRENT_TIMESTAMP, CURRENT_TIMESTAMP)"@,
{
    "INSERT INTO test VALUES (CURRENT_TIMESTAMP, CURRENT_TIMESTAMP)"
}

/// The query that counts the rows of the shared table.
pub fn count_query() -> (sql: &'static str)
    ensures
        sql@ == "SELECT COUNT(*) FROM test"@,
{
    "SELECT COUNT(*) FROM test"
}

/// The query that asks a node for its readiness payload.
pub fn diagnostic_query() -> (sql: &'static str)
    ensures
        sql@ == "PRAGMA sync_status"@,
{
    "PRAGMA sync_status"
}

} // verus!
