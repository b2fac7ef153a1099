//! The entries that wait for the next flush.
//!
//! The buffer itself is a plain sequence with two operations, each of which
//! is one step: `append` and `drain`. A buffer that is shared between
//! threads stands behind one lock of `parking_lot`, which is held for each
//! step, so that a run of the program is some sequence of these steps.
//! What is proved here holds of every such sequence.
use crate::json::Stream;
use parking_lot::{RwLock, RwLockWriteGuard};
use vstd::prelude::*;

verus! {

/// The raw lock of `parking_lot`, which its `RwLock` is made of.
#[verifier::external_type_specification]
#[verifier::external_body]
pub struct ExRawRwLock(parking_lot::RawRwLock);

/// The reader-writer lock of `parking_lot` (`parking_lot::RwLock`), by the
/// type that it is an alias of. What it guards cannot be seen from outside.
#[verifier::external_type_specification]
#[verifier::external_body]
#[verifier::reject_recursive_types(R)]
#[verifier::reject_recursive_types(T)]
pub struct ExRwLock<R, T: ?Sized>(parking_lot::lock_api::RwLock<R, T>);

/// Exclusive access to a shared buffer: the write guard of `parking_lot`
/// (`parking_lot::RwLockWriteGuard`). The lock is released when the guard
/// goes out of scope.
#[verifier::external_body]
pub struct WriteGuard<'a> {
    guard: RwLockWriteGuard<'a, EntryBuffer>,
}

/// Calls `parking_lot::RwLock::new`: a lock around `buffer`.
#[verifier::external_body]
pub(crate) fn new_lock(buffer: EntryBuffer) -> (r: RwLock<EntryBuffer>) {
    RwLock::new(buffer)
}

/// Calls `parking_lot::RwLock::write`: waits until no other guard of the
/// lock is alive and hands out exclusive access. A thread that still holds
/// a guard of the same lock must not call this; it would wait for itself.
#[verifier::external_body]
pub(crate) fn lock_write<'a>(lock: &'a RwLock<EntryBuffer>) -> (r: WriteGuard<'a>) {
    WriteGuard { guard: lock.write() }
}

/// Dereferences a write guard (`DerefMut::deref_mut` of
/// `parking_lot::RwLockWriteGuard`): the buffer behind the lock. Nothing is
/// claimed of what the buffer holds: other threads may have filled it.
#[verifier::external_body]
pub(crate) fn guarded<'a, 'b>(guard: &'b mut WriteGuard<'a>) -> (r: &'b mut EntryBuffer) {
    &mut *guard.guard
}

/// The entries that have been taken in and not yet flushed, oldest first.
#[derive(Debug)]
pub struct EntryBuffer {
    entries: Vec<Stream>,
}

impl View for EntryBuffer {
    type V = Seq<Stream>;

    closed spec fn view(&self) -> Seq<Stream> {
        self.entries@
    }
}

impl EntryBuffer {
    /// An empty buffer with room for `capacity` entries.
    pub fn new(capacity: usize) -> (r: EntryBuffer)
        ensures
            r@ == Seq::<Stream>::empty(),
    {
        EntryBuffer { entries: Vec::with_capacity(capacity) }
    }

    /// The number of entries that wait.
    pub fn len(&self) -> (n: usize)
        ensures
            n == self@.len(),
    {
        self.entries.len()
    }

    /// Whether no entry waits.
    pub fn is_empty(&self) -> (r: bool)
        ensures
            r == (self@.len() == 0),
    {
        self.entries.len() == 0
    }

    /// Adds `entry` behind the entries that wait, and says how many wait
    /// now.
    pub fn append(&mut self, entry: Stream) -> (new_size: usize)
        ensures
            final(self)@ == old(self)@.push(entry),
            new_size == old(self)@.len() + 1,
    {
        self.entries.push(entry);
        self.entries.len()
    }

    /// Takes every entry that waits, in order, and leaves the buffer empty.
    pub fn drain(&mut self) -> (batch: Vec<Stream>)
        ensures
            batch@ == old(self)@,
            final(self)@ == Seq::<Stream>::empty(),
    {
        let mut batch: Vec<Stream> = Vec::new();
        std::mem::swap(&mut batch, &mut self.entries);
        batch
    }
}

/// One step on a buffer.
pub enum BufferOp {
    /// An entry is appended.
    Append(Stream),
    /// The buffer is drained.
    Drain,
}

/// The buffer after the steps `ops`, started from `buffer`.
pub open spec fn buffer_after(buffer: Seq<Stream>, ops: Seq<BufferOp>) -> Seq<Stream>
    decreases ops.len(),
{
    if ops.len() == 0 {
        buffer
    } else {
        match ops.last() {
            BufferOp::Append(entry) => buffer_after(buffer, ops.drop_last()).push(entry),
            BufferOp::Drain => Seq::empty(),
        }
    }
}

/// The batches that the drains among `ops` hand out, in order, when the
/// steps start from `buffer`.
pub open spec fn batches_of(buffer: Seq<Stream>, ops: Seq<BufferOp>) -> Seq<Seq<Stream>>
    decreases ops.len(),
{
    if ops.len() == 0 {
        Seq::empty()
    } else {
        match ops.last() {
            BufferOp::Append(_) => batches_of(buffer, ops.drop_last()),
            BufferOp::Drain => batches_of(buffer, ops.drop_last()).push(
                buffer_after(buffer, ops.drop_last()),
            ),
        }
    }
}

/// The entries that the appends among `ops` bring, in order.
pub open spec fn appended(ops: Seq<BufferOp>) -> Seq<Stream>
    decreases ops.len(),
{
    if ops.len() == 0 {
        Seq::empty()
    } else {
        match ops.last() {
            BufferOp::Append(entry) => appended(ops.drop_last()).push(entry),
            BufferOp::Drain => appended(ops.drop_last()),
        }
    }
}

/// The entries of all `batches`, one batch after the other.
pub open spec fn concatenated(batches: Seq<Seq<Stream>>) -> Seq<Stream>
    decreases batches.len(),
{
    if batches.len() == 0 {
        Seq::empty()
    } else {
        concatenated(batches.drop_last()) + batches.last()
    }
}

/// Nothing is lost and nothing comes twice. Whatever the order of appends
/// and drains: the batches handed out, laid end to end and followed by
/// what still waits, are the entries that waited at the start followed by
/// those appended, each once and in the order of its arrival. An entry
/// appended after a drain is in none of the batches up to that drain.
pub proof fn lemma_drains_partition_appends(buffer: Seq<Stream>, ops: Seq<BufferOp>)
    ensures
        concatenated(batches_of(buffer, ops)) + buffer_after(buffer, ops) == buffer + appended(ops),
    decreases ops.len(),
{
    if ops.len() == 0 {
        assert(concatenated(batches_of(buffer, ops)) + buffer_after(buffer, ops) =~= buffer
            + appended(ops));
    } else {
        let head = ops.drop_last();
        lemma_drains_partition_appends(buffer, head);
        match ops.last() {
            BufferOp::Append(entry) => {
                assert(concatenated(batches_of(buffer, head)) + buffer_after(buffer, head).push(
                    entry,
                ) =~= (concatenated(batches_of(buffer, head)) + buffer_after(buffer, head)).push(
                    entry,
                ));
                assert(buffer + appended(head).push(entry) =~= (buffer + appended(head)).push(
                    entry,
                ));
            },
            BufferOp::Drain => {
                let batches = batches_of(buffer, ops);
                assert(batches.drop_last() =~= batches_of(buffer, head));
                assert(batches.last() == buffer_after(buffer, head));
                assert(concatenated(batches) + Seq::<Stream>::empty() =~= concatenated(batches));
            },
        }
    }
}

/// The number of entries in the batches of all drains and in what still
/// waits is the number that waited at the start and were appended.
pub proof fn lemma_drains_count_appends(buffer: Seq<Stream>, ops: Seq<BufferOp>)
    ensures
        concatenated(batches_of(buffer, ops)).len() + buffer_after(buffer, ops).len()
            == buffer.len() + appended(ops).len(),
{
    lemma_drains_partition_appends(buffer, ops);
    assert((concatenated(batches_of(buffer, ops)) + buffer_after(buffer, ops)).len() == (buffer
        + appended(ops)).len());
}

} // verus!
