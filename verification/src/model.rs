use vstd::prelude::*;

verus! {

/// One abstract row of the queue table: the engine-assigned identity and the
/// stored payload.
pub struct ModelMessage {
    pub id: u64,
    pub payload: Vec<u8>,
}

/// Rows stand in insertion order with strictly growing identities: every
/// row's identity is below every later row's, so no identity repeats.
pub open spec fn ordered_ids(s: Seq<(u64, Seq<u8>)>) -> bool {
    forall|i: int, j: int| 0 <= i < j < s.len() ==> (#[trigger] s[i]).0 < (#[trigger] s[j]).0
}

/// Whether an identity occurs among the rows of a state.
pub open spec fn contains_id(s: Seq<(u64, Seq<u8>)>, id: u64) -> bool {
    exists|i: int| 0 <= i < s.len() && (#[trigger] s[i]).0 == id
}

/// The reference state machine of the queue protocol.
///
/// Its state is what the table holds at one instant: the not-yet-delivered
/// messages in insertion order — exactly the state the SQL statements ask the
/// backing engine to keep. A message is born on enqueue with a fresh,
/// engine-assigned identity and dies on the claim that returns it
/// (absent, then enqueued, then claimed-and-deleted, with no externally
/// observable state in between). The delivery laws of the protocol are
/// stated and proved against this machine; the real store keeps the same
/// state in the table itself and delegates the steps to the engine's atomic
/// statements.
pub struct QueueModel {
    initialized: bool,
    messages: Vec<ModelMessage>,
    next_id: u64,
}

impl View for QueueModel {
    type V = Seq<(u64, Seq<u8>)>;

    closed spec fn view(&self) -> Seq<(u64, Seq<u8>)> {
        self.messages@.map(|i: int, m: ModelMessage| (m.id, m.payload@))
    }
}

impl QueueModel {
    /// The next identity the model will assign; it mirrors the engine's
    /// generator, which never hands out the same identity twice.
    pub closed spec fn spec_next_id(&self) -> u64 {
        self.next_id
    }

    /// Whether the schema has been created.
    pub closed spec fn is_initialized(&self) -> bool {
        self.initialized
    }

    /// Identities grow strictly along the insertion order and stay below the
    /// next identity to be assigned.
    pub closed spec fn inv(&self) -> bool {
        &&& ordered_ids(self@)
        &&& forall|i: int| 0 <= i < self@.len() ==> (#[trigger] self@[i]).0 < self.next_id
    }

    /// A fresh store: no schema yet, no rows.
    pub fn new() -> (q: Self)
        ensures
            q@ == Seq::<(u64, Seq<u8>)>::empty(),
            !q.is_initialized(),
            q.inv(),
            q.spec_next_id() == 0,
    {
        let q = QueueModel { initialized: false, messages: Vec::new(), next_id: 0 };
        proof {
            assert(q@ =~= Seq::<(u64, Seq<u8>)>::empty());
        }
        q
    }

    /// Creates the schema if absent. Idempotent: run against an already
    /// initialized store it changes nothing at all, so a second run leaves
    /// exactly what the first left, and enqueue and dequeue behave as after
    /// a single run.
    pub fn initialize(&mut self)
        requires
            old(self).inv(),
        ensures
            final(self).inv(),
            final(self).is_initialized(),
            final(self)@ == old(self)@,
            final(self).spec_next_id() == old(self).spec_next_id(),
            old(self).is_initialized() ==> *final(self) == *old(self),
    {
        self.initialized = true;
    }

    /// Appends one message. The payload is stored verbatim (an empty payload
    /// included) and the identity is assigned by the store, strictly above
    /// every identity assigned before — as the engine generates identity and
    /// timestamp, never the producer. Requires an initialized schema, as the
    /// real store does, and an unexhausted identity generator.
    pub fn enqueue(&mut self, payload: Vec<u8>) -> (id: u64)
        requires
            old(self).inv(),
            old(self).is_initialized(),
            old(self).spec_next_id() < u64::MAX,
        ensures
            final(self).inv(),
            final(self).is_initialized(),
            final(self)@ == old(self)@.push((id, payload@)),
            id == old(self).spec_next_id(),
            final(self).spec_next_id() == old(self).spec_next_id() + 1,
            !contains_id(old(self)@, id),
    {
        let id = self.next_id;
        self.next_id = self.next_id + 1;
        self.messages.push(ModelMessage { id, payload });
        proof {
            assert(self@ =~= old(self)@.push((id, self.messages@.last().payload@)));
        }
        id
    }

    /// Claims the oldest message: removes it from the state and returns it,
    /// as one step — a returned message is gone from the state every later
    /// claim starts from, so it can never be claimed again. On an empty
    /// store the claim returns nothing and changes nothing; that is an
    /// ordinary outcome, not a failure.
    pub fn dequeue(&mut self) -> (r: Option<ModelMessage>)
        requires
            old(self).inv(),
        ensures
            final(self).inv(),
            final(self).is_initialized() == old(self).is_initialized(),
            final(self).spec_next_id() == old(self).spec_next_id(),
            old(self)@.len() == 0 ==> r is None && final(self)@ == old(self)@,
            old(self)@.len() > 0 ==> (r matches Some(m) && (m.id, m.payload@) == old(self)@[0]
                && final(self)@ == old(self)@.drop_first() && !contains_id(final(self)@, m.id)),
    {
        if self.messages.len() == 0 {
            None
        } else {
            let m = self.messages.remove(0);
            proof {
                assert(self@ =~= old(self)@.drop_first());
                assert(old(self)@[0].0 == m.id);
                assert forall|i: int| 0 <= i < self@.len() implies (#[trigger] self@[i]).0
                    != m.id by {
                    assert(self@[i] == old(self)@[i + 1]);
                }
            }
            Some(m)
        }
    }
}

/// FIFO under no contention: from state `s`, the claim made after `i`
/// earlier uncontended claims starts from `s` without its first `i` rows and
/// returns exactly row `i` — payloads enqueued sequentially come back in
/// exactly their insertion order.
pub proof fn lemma_fifo_order(s: Seq<(u64, Seq<u8>)>, i: int)
    requires
        0 <= i < s.len(),
    ensures
        s.skip(i).len() == s.len() - i,
        s.skip(i)[0] == s[i],
        s.skip(i).drop_first() == s.skip(i + 1),
{
    assert(s.skip(i).drop_first() =~= s.skip(i + 1));
}

/// At-most-once delivery: claim and removal are one step, so the row a claim
/// returns is absent from the state every later claim starts from; with
/// identities that never repeat, no identity is ever returned twice — and
/// concurrent claims, which the engine's atomic lock-and-delete serializes,
/// are claims in some order.
pub proof fn lemma_at_most_once(s: Seq<(u64, Seq<u8>)>)
    requires
        ordered_ids(s),
        s.len() > 0,
    ensures
        !contains_id(s.drop_first(), s[0].0),
        ordered_ids(s.drop_first()),
{
    assert forall|i: int| 0 <= i < s.drop_first().len() implies (#[trigger] s.drop_first()[
        i
    ]).0 != s[0].0 by {
        assert(s.drop_first()[i] == s[i + 1]);
    }
}

/// Skip-on-contention: when the oldest `k` rows are held by concurrent
/// in-flight claims, a claim skips them and returns the oldest unlocked row,
/// row `k` — a row no in-flight claim holds, and older than every row after
/// it. Delivery order under contention is FIFO among the unlocked rows.
pub proof fn lemma_skip_locked(s: Seq<(u64, Seq<u8>)>, k: int)
    requires
        ordered_ids(s),
        0 <= k < s.len(),
    ensures
        s.skip(k)[0] == s[k],
        !contains_id(s.subrange(0, k), s[k].0),
{
    assert forall|i: int| 0 <= i < k implies (#[trigger] s.subrange(0, k)[i]).0 != s[k].0 by {
        assert(s.subrange(0, k)[i] == s[i]);
    }
}

/// Two consumers race on a queue of exactly two rows: one claims the oldest
/// row, the other — finding that row locked or already gone — claims the
/// second. The returned identities are distinct and together are exactly the
/// two that were enqueued: no duplicate, no loss, nothing left behind.
pub proof fn lemma_pair_of_claims(s: Seq<(u64, Seq<u8>)>)
    requires
        ordered_ids(s),
        s.len() == 2,
    ensures
        s.skip(0)[0] == s[0],
        s.skip(1)[0] == s[1],
        s[0].0 != s[1].0,
        s.skip(2).len() == 0,
{
    lemma_skip_locked(s, 0);
    lemma_skip_locked(s, 1);
}

/// Round-trip payload fidelity: an enqueue appends its payload verbatim, and
/// once the rows enqueued before it are claimed, the next claim returns that
/// row — identity and payload byte-for-byte as stored, for every byte
/// sequence including the empty one.
pub proof fn lemma_round_trip(s: Seq<(u64, Seq<u8>)>, id: u64, payload: Seq<u8>)
    ensures
        s.push((id, payload)).skip(s.len() as int).len() == 1,
        s.push((id, payload)).skip(s.len() as int)[0] == (id, payload),
{
}

} // verus!
