use vstd::prelude::*;

verus! {

/// A failure of a queue operation.
///
/// "No message available" is deliberately not here: an empty queue is an
/// ordinary dequeue outcome, kept structurally distinct from every failure
/// so that a polling consumer can loop without error-driven control flow.
#[derive(Debug)]
pub enum Failure {
    /// The backing engine reported a failure (connectivity, permissions,
    /// constraint violation), surfaced verbatim with no internal retry.
    PostgresError(postgres::Error),
    /// The defensive single-row invariant of dequeue was violated: the
    /// atomic claim statement returned more than one row. A structural
    /// anomaly, not an expected runtime path.
    QueueError(&'static str),
}

} // verus!
