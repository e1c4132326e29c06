use vstd::prelude::*;
use vstd::string::StringExecFns;

verus! {

/// The text of the statement that appends one row to `table`: identity and
/// insertion timestamp are left to the engine's column defaults, and the
/// payload is bound to the single parameter.
pub open spec fn spec_insert_statement(table: Seq<char>) -> Seq<char> {
    "INSERT INTO "@ + table + " (data) VALUES ($1)"@
}

/// The text of the atomic claim statement for `table`: select the oldest row
/// by insertion timestamp, skipping rows locked by concurrent in-flight
/// claims, lock it, delete it, and return its columns — one indivisible
/// server-side operation.
pub open spec fn spec_dequeue_statement(table: Seq<char>) -> Seq<char> {
    "DELETE FROM "@ + table + " q WHERE q.id = (SELECT q_in.id FROM "@ + table
        + " q_in ORDER BY q_in.inserted_at ASC FOR UPDATE SKIP LOCKED LIMIT 1) RETURNING q.id, q.inserted_at, q.data"@
}

/// The text of the idempotent initialization script for `table`: create the
/// table if absent (engine-generated identity, engine-defaulted timestamp,
/// nullable binary payload) and the supporting index on the timestamp if
/// absent.
pub open spec fn spec_create_statement(table: Seq<char>) -> Seq<char> {
    "CREATE TABLE IF NOT EXISTS "@ + table
        + " (id UUID PRIMARY KEY DEFAULT gen_random_uuid(), inserted_at TIMESTAMP NOT NULL DEFAULT NOW(), data BYTEA); CREATE INDEX IF NOT EXISTS inserted_at ON "@
        + table + " (inserted_at);"@
}

/// Builds the insert statement for the given table name.
pub fn insert_statement(table: &str) -> (r: String)
    ensures
        r@ == spec_insert_statement(table@),
{
    let mut s = String::from_str("INSERT INTO ");
    s.append(table);
    s.append(" (data) VALUES ($1)");
    s
}

/// Builds the atomic claim statement for the given table name.
pub fn dequeue_statement(table: &str) -> (r: String)
    ensures
        r@ == spec_dequeue_statement(table@),
{
    let mut s = String::from_str("DELETE FROM ");
    s.append(table);
    s.append(" q WHERE q.id = (SELECT q_in.id FROM ");
    s.append(table);
    s.append(" q_in ORDER BY q_in.inserted_at ASC FOR UPDATE SKIP LOCKED LIMIT 1) RETURNING q.id, q.inserted_at, q.data");
    s
}

/// Builds the initialization script for the given table name.
pub fn create_statement(table: &str) -> (r: String)
    ensures
        r@ == spec_create_statement(table@),
{
    let mut s = String::from_str("CREATE TABLE IF NOT EXISTS ");
    s.append(table);
    s.append(
        " (id UUID PRIMARY KEY DEFAULT gen_random_uuid(), inserted_at TIMESTAMP NOT NULL DEFAULT NOW(), data BYTEA); CREATE INDEX IF NOT EXISTS inserted_at ON ",
    );
    s.append(table);
    s.append(" (inserted_at);");
    s
}

} // verus!
