use vstd::prelude::*;

verus! {

/// One queued item, returned to the caller of dequeue.
///
/// Identity and insertion timestamp are assigned by the backing engine when
/// the row is inserted; the queue carries both through untouched and never
/// reads them. The payload is an opaque byte sequence, stored and returned
/// verbatim (an empty payload included).
pub struct QueueMessage {
    pub id: uuid::Uuid,
    pub inserted_at: std::time::SystemTime,
    pub data: Vec<u8>,
}

} // verus!
