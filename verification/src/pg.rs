use vstd::prelude::*;

use crate::message::QueueMessage;

verus! {

#[verifier::external_type_specification]
#[verifier::external_body]
pub struct ExPgClient(postgres::Client);

#[verifier::external_type_specification]
#[verifier::external_body]
pub struct ExPgError(postgres::Error);

#[verifier::external_type_specification]
#[verifier::external_body]
pub struct ExUuid(uuid::Uuid);

#[verifier::external_type_specification]
#[verifier::external_body]
pub struct ExSystemTime(std::time::SystemTime);

/// Relies on postgres::Client::connect: opens a session to the engine that
/// the connection string describes, without TLS. Whether it succeeds depends
/// on the environment, so nothing is promised of the outcome.
#[verifier::external_body]
pub(crate) fn pg_connect(params: &str) -> Result<postgres::Client, postgres::Error> {
    postgres::Client::connect(params, postgres::NoTls)
}

/// Relies on postgres::Client::execute: runs one statement with the byte
/// slice bound to its single parameter and reports the engine's outcome
/// (the number of rows the statement modified, or the engine's error). The
/// outcome depends on the engine's state, so nothing is promised of it.
#[verifier::external_body]
pub(crate) fn pg_execute_with_payload(
    client: &mut postgres::Client,
    statement: &str,
    payload: &[u8],
) -> Result<u64, postgres::Error> {
    client.execute(statement, &[&payload])
}

/// Relies on postgres::Client::query and postgres::Row::try_get: runs one
/// statement with no parameters and decodes each returned row's three
/// columns (UUID identity, timestamp, byte payload) into a message, in the
/// order the engine returned the rows. Which rows come back depends on the
/// engine's state, so nothing is promised of them. A row that does not
/// decode — a NULL payload, or a column of another type — is surfaced as
/// the engine's error, never a panic.
#[verifier::external_body]
pub(crate) fn pg_query_messages(
    client: &mut postgres::Client,
    statement: &str,
) -> Result<Vec<QueueMessage>, postgres::Error> {
    let rows = client.query(statement, &[])?;
    rows.iter()
        .map(|row| {
            Ok(QueueMessage {
                id: row.try_get::<usize, uuid::Uuid>(0)?,
                inserted_at: row.try_get::<usize, std::time::SystemTime>(1)?,
                data: row.try_get::<usize, Vec<u8>>(2)?,
            })
        })
        .collect()
}

/// Relies on postgres::Client::batch_execute: runs the statements of one
/// script in order and reports the engine's outcome.
#[verifier::external_body]
pub(crate) fn pg_batch_execute(
    client: &mut postgres::Client,
    script: &str,
) -> Result<(), postgres::Error> {
    client.batch_execute(script)
}

} // verus!
