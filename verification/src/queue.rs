//! Bounded record queue: the verified model of the non-blocking adapter in
//! front of the file sink. Producers only enqueue; a single background
//! consumer dequeues and performs the actual file I/O. Enqueueing is total:
//! it succeeds in every well-formed state, and when the queue is full the
//! oldest unsent record is dropped rather than making the producer wait.

use vstd::prelude::*;

verus! {

/// A FIFO queue of log records with a fixed capacity and a drop-oldest
/// overflow policy.
pub struct BoundedQueue {
    /// Maximum number of records held at once; at least 1.
    pub capacity: usize,
    /// The queued records, oldest first.
    pub items: Vec<Vec<u8>>,
}

/// The contents of `items` after enqueueing `record` into a queue of
/// capacity `capacity`: appended at the tail, the oldest record dropped
/// first when the queue is already full.
pub open spec fn enqueue_spec(items: Seq<Seq<u8>>, capacity: int, record: Seq<u8>) -> Seq<
    Seq<u8>,
> {
    if items.len() < capacity {
        items.push(record)
    } else {
        items.skip(1).push(record)
    }
}

impl BoundedQueue {
    /// The records as mathematical sequences, oldest first.
    pub open spec fn contents(&self) -> Seq<Seq<u8>> {
        self.items@.map_values(|r: Vec<u8>| r@)
    }

    /// Well-formedness: positive capacity, never more records than it.
    pub open spec fn wf(&self) -> bool {
        &&& self.capacity >= 1
        &&& self.items@.len() <= self.capacity
    }

    /// Creates an empty queue.
    pub fn new(capacity: usize) -> (q: BoundedQueue)
        requires
            capacity >= 1,
        ensures
            q.wf(),
            q.capacity == capacity,
            q.contents() == Seq::<Seq<u8>>::empty(),
    {
        let q = BoundedQueue { capacity, items: Vec::new() };
        proof {
            assert(q.contents() =~= Seq::<Seq<u8>>::empty());
        }
        q
    }

    /// Enqueues a record. Total over every well-formed state: the caller is
    /// never made to wait for the consumer. When the queue is full, the
    /// oldest unsent record is dropped to make room.
    pub fn enqueue(&mut self, record: Vec<u8>)
        requires
            old(self).wf(),
        ensures
            final(self).wf(),
            final(self).capacity == old(self).capacity,
            final(self).contents() == enqueue_spec(
                old(self).contents(),
                old(self).capacity as int,
                record@,
            ),
    {
        if self.items.len() == self.capacity {
            let _dropped = self.items.remove(0);
        }
        self.items.push(record);
        proof {
            assert(self.contents() =~= enqueue_spec(
                old(self).contents(),
                old(self).capacity as int,
                record@,
            ));
        }
    }

    /// Empties the queue and hands back everything still buffered, oldest
    /// first: what releasing the guard flushes to the sink. After a drain
    /// nothing further is owed to the file — records enqueued later are lost
    /// by design.
    pub fn drain(&mut self) -> (flushed: Vec<Vec<u8>>)
        requires
            old(self).wf(),
        ensures
            final(self).wf(),
            final(self).capacity == old(self).capacity,
            final(self).contents() == Seq::<Seq<u8>>::empty(),
            flushed@.map_values(|r: Vec<u8>| r@) == old(self).contents(),
    {
        let mut flushed: Vec<Vec<u8>> = Vec::new();
        core::mem::swap(&mut flushed, &mut self.items);
        proof {
            assert(self.contents() =~= Seq::<Seq<u8>>::empty());
        }
        flushed
    }

    /// Dequeues the oldest record, in the order the producer enqueued the
    /// surviving records; `None` exactly when the queue is empty.
    pub fn dequeue(&mut self) -> (r: Option<Vec<u8>>)
        requires
            old(self).wf(),
        ensures
            final(self).wf(),
            final(self).capacity == old(self).capacity,
            old(self).contents().len() == 0 ==> {
                &&& r is None
                &&& final(self).contents() == old(self).contents()
            },
            old(self).contents().len() > 0 ==> {
                &&& r matches Some(rec) && rec@ == old(self).contents()[0]
                &&& final(self).contents() == old(self).contents().skip(1)
            },
    {
        if self.items.len() == 0 {
            proof {
                assert(self.contents() =~= old(self).contents());
            }
            None
        } else {
            let rec = self.items.remove(0);
            proof {
                assert(self.contents() =~= old(self).contents().skip(1));
            }
            Some(rec)
        }
    }
}

/// Law: enqueueing never blocks and never overflows. The effect of enqueue
/// is defined for every well-formed queue state and every record — there is
/// no state in which the producer must wait for the consumer — and the
/// resulting queue again holds at most `capacity` records, with the oldest
/// record dropped exactly when the queue was full.
pub proof fn lemma_enqueue_total_and_bounded(items: Seq<Seq<u8>>, capacity: int, record: Seq<u8>)
    requires
        capacity >= 1,
        items.len() <= capacity,
    ensures
        enqueue_spec(items, capacity, record).len() <= capacity,
        items.len() < capacity ==> enqueue_spec(items, capacity, record) == items.push(record),
        items.len() == capacity ==> enqueue_spec(items, capacity, record) == items.skip(1).push(
            record,
        ),
{
}

/// The queue contents after the producer enqueues `records`, oldest first.
pub open spec fn enqueue_all(items: Seq<Seq<u8>>, capacity: int, records: Seq<Seq<u8>>) -> Seq<
    Seq<u8>,
>
    decreases records.len(),
{
    if records.len() == 0 {
        items
    } else {
        enqueue_all(enqueue_spec(items, capacity, records[0]), capacity, records.skip(1))
    }
}

/// Law: single-producer FIFO. As long as the consumer keeps up — the queue
/// never overflows — the queue holds exactly the records the producer
/// enqueued, behind what was already buffered, in program order; the
/// consumer then writes them out in that same order, one dequeue at a time.
pub proof fn lemma_fifo_order(items: Seq<Seq<u8>>, capacity: int, records: Seq<Seq<u8>>)
    requires
        items.len() + records.len() <= capacity,
    ensures
        enqueue_all(items, capacity, records) == items + records,
    decreases records.len(),
{
    if records.len() == 0 {
        assert(enqueue_all(items, capacity, records) =~= items + records);
    } else {
        let next = enqueue_spec(items, capacity, records[0]);
        assert(next == items.push(records[0]));
        lemma_fifo_order(next, capacity, records.skip(1));
        assert(items.push(records[0]) + records.skip(1) =~= items + records);
    }
}

} // verus!
