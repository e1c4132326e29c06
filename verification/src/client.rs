use vstd::prelude::*;

use crate::error::Failure;
use crate::message::QueueMessage;
use crate::pg::{pg_batch_execute, pg_connect, pg_execute_with_payload, pg_query_messages};
use crate::statements::{create_statement, dequeue_statement, insert_statement};

verus! {

/// The message carried by `Failure::QueueError` when the atomic claim
/// statement returns more than one row.
pub open spec fn spec_anomaly_message() -> Seq<char> {
    "expected one row, got multiple rows"@
}

/// Interprets the rows that the atomic claim statement returned.
///
/// The statement ends in `LIMIT 1`, so the engine can hand back at most one
/// row: none when the queue was empty at the instant of the claim, one when
/// a row was claimed and removed. Any other count is a structural anomaly
/// and is reported as such rather than silently returning one of the rows.
pub fn claim_from_rows(mut rows: Vec<QueueMessage>) -> (r: Result<
    Option<QueueMessage>,
    Failure,
>)
    ensures
        rows@.len() == 0 ==> r == Ok::<Option<QueueMessage>, Failure>(None),
        rows@.len() == 1 ==> (r matches Ok(m) && m matches Some(msg) && msg == rows@[0]),
        rows@.len() > 1 ==> (r matches Err(e) && e matches Failure::QueueError(text) && text@
            == spec_anomaly_message()),
{
    if rows.len() == 1 {
        let msg = rows.pop().unwrap();
        Ok(Some(msg))
    } else if rows.len() == 0 {
        Ok(None)
    } else {
        Err(Failure::QueueError("expected one row, got multiple rows"))
    }
}

/// One named queue, bound to one session with the backing engine.
///
/// The queue's name doubles as the table name; no state is cached between
/// calls, the table is the single source of truth.
pub struct QueueClient {
    p_client: postgres::Client,
    queue_name: String,
}

impl QueueClient {
    /// The name of the queue this client is bound to.
    pub closed spec fn spec_queue_name(&self) -> Seq<char> {
        self.queue_name@
    }

    /// Opens a session to the engine that the connection string describes
    /// and binds it to the named queue.
    pub fn connect(connection_string: &str, queue_name: &str) -> (r: Result<
        Self,
        postgres::Error,
    >)
        ensures
            r matches Ok(c) ==> c.spec_queue_name() == queue_name@,
    {
        let p_client = match pg_connect(connection_string) {
            Ok(c) => c,
            Err(e) => {
                return Err(e);
            },
        };
        Ok(Self::use_db_client(p_client, queue_name))
    }

    /// Binds an already-open session to the named queue.
    pub fn use_db_client(client: postgres::Client, queue_name: &str) -> (r: Self)
        ensures
            r.spec_queue_name() == queue_name@,
    {
        QueueClient { p_client: client, queue_name: queue_name.to_owned() }
    }

    /// Appends exactly one row with the given payload, stored verbatim (an
    /// empty payload included). Identity and insertion timestamp are
    /// engine-generated, never client-supplied, so insertion order is the
    /// engine's order. The insert is its own transaction: on success the
    /// message is durably visible to any subsequent dequeue.
    ///
    /// Requires that `try_create_queue` has run at least once for this queue
    /// (by this or any other process sharing the table); enqueue does not
    /// initialize. An engine failure is surfaced verbatim as
    /// `Failure::PostgresError`; no partial insert is observable.
    pub fn enqueue(&mut self, data: &[u8]) -> (r: Result<(), Failure>)
        ensures
            final(self).spec_queue_name() == old(self).spec_queue_name(),
            r matches Err(e) ==> e is PostgresError,
    {
        let statement = insert_statement(self.queue_name.as_str());
        let result = pg_execute_with_payload(&mut self.p_client, statement.as_str(), data);
        match result {
            Err(err) => Err(Failure::PostgresError(err)),
            _ => Ok(()),
        }
    }

    /// Atomically claims the oldest not-yet-claimed row: one server-side
    /// operation selects the oldest row by insertion timestamp, skips rows
    /// locked by concurrent in-flight claims rather than blocking, locks the
    /// selected row, deletes it, and returns it. Delivery and removal are
    /// the same transaction: no two concurrent callers can receive the same
    /// message, and a returned message can never be reclaimed.
    ///
    /// Returns `Ok(Some(message))` when a row was claimed, `Ok(None)` when
    /// the queue was empty at the instant of the claim (not an error). An
    /// engine failure is surfaced verbatim as `Failure::PostgresError` — a
    /// claimed row that fails to decode (a NULL payload among the causes)
    /// included; if
    /// the claim ever yields more than one row, the defensive single-row
    /// invariant fails with `Failure::QueueError` carrying exactly the
    /// anomaly message.
    pub fn dequeue(&mut self) -> (r: Result<Option<QueueMessage>, Failure>)
        ensures
            final(self).spec_queue_name() == old(self).spec_queue_name(),
            r matches Err(e) ==> (e is PostgresError || (e matches Failure::QueueError(text)
                && text@ == spec_anomaly_message())),
    {
        let statement = dequeue_statement(self.queue_name.as_str());
        let response = pg_query_messages(&mut self.p_client, statement.as_str());
        let rows = match response {
            Err(err) => {
                return Err(Failure::PostgresError(err));
            },
            Ok(rows) => rows,
        };
        claim_from_rows(rows)
    }

    /// Idempotently initializes the queue's schema: creates the table if
    /// absent (engine-generated UUID identity, engine-defaulted insertion
    /// timestamp, nullable binary payload) and the supporting index on the
    /// insertion timestamp if absent. Running it against an existing,
    /// correctly-shaped table is a no-op; an engine failure is surfaced
    /// verbatim.
    pub fn try_create_queue(&mut self) -> (r: Result<(), postgres::Error>)
        ensures
            final(self).spec_queue_name() == old(self).spec_queue_name(),
    {
        let script = create_statement(self.queue_name.as_str());
        pg_batch_execute(&mut self.p_client, script.as_str())
    }
}

} // verus!
