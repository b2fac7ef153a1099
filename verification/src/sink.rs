//! The sink: it takes log events one by one, labels them, keeps them until
//! the flush threshold is reached, and then hands the batch on.
//!
//! Each operation exists twice. `log_into` and `flush_from` work on a
//! buffer that the caller holds, and say exactly what they do to it. `log`
//! and `flush` work on the buffer of the sink itself, which stands behind a
//! lock and may be shared between threads; each of them is one step of the
//! first kind on whatever waited when the lock was taken.
use crate::backend::{Backend, Delivery};
use crate::buffer::{guarded, lock_write, new_lock, EntryBuffer};
use crate::json::{
    batch_encodable, event_encodable, event_json, json_serializer, noop_serializer,
    serialized_event, streams_json, Stream,
};
use crate::labels::{Labels, Pairs};
use crate::policy::{entry_labels, entry_pairs, structured_pairs};
use crate::record::{failure_free, first_failure, KvError, Level, LogRecord};
use crate::text::starts_with;
use parking_lot::RwLock;
use vstd::prelude::*;
use vstd::string::*;
use vstd::utf8::*;

verus! {

/// The formats in which a batch can be serialized.
#[derive(Clone, Copy, Debug, PartialEq, Eq, Structural)]
pub enum SerializationFormat {
    /// The batch is not serialized at all: its payload is empty.
    Disabled,
    /// The batch is serialized as the JSON body of a push request.
    Json,
}

/// Why a flush did not hand its batch to the backend.
#[derive(Debug)]
pub enum FlushError {
    /// The batch could not be serialized.
    Encoding { message: String },
    /// The backend could not take the payload.
    Delivery { message: String },
}

/// A flush that took place: the batch that left the buffer, and what
/// became of it. The batch is gone from the sink whatever the result.
#[derive(Debug)]
pub struct Flush {
    /// The entries that were flushed, oldest first.
    pub batch: Vec<Stream>,
    /// What is left to do for the batch, or why it was lost.
    pub result: Result<Delivery, FlushError>,
}

/// What the sink made of a log event before the buffer came into play.
#[derive(Debug)]
pub enum Intake {
    /// The event came from the transport itself and is passed over.
    Ignored,
    /// The structured data of the event could not be read.
    KeyValues(KvError),
    /// The line of the event could not be written.
    Line(String),
    /// The line of the event is longer than the maximum.
    Dropped,
    /// The entry for the event.
    Entry(Stream),
}

/// What the sink did with a log event.
#[derive(Debug)]
pub enum LogOutcome {
    /// The event came from the transport itself and was passed over.
    Ignored,
    /// The structured data of the event could not be read; no entry was
    /// made.
    KeyValues(KvError),
    /// The line of the event could not be written; no entry was made.
    Line(String),
    /// The line of the event is longer than the maximum; no entry was made.
    Dropped,
    /// An entry was made and waits; so many entries wait now.
    Buffered(usize),
    /// An entry was made, the threshold was reached and the buffer was
    /// flushed.
    Flushed(Flush),
}

/// The configuration of a sink. It never changes.
pub struct FenrirView {
    pub backend: Backend,
    pub additional_tags: Pairs,
    pub serializer: SerializationFormat,
    pub include_level: bool,
    pub include_framework: bool,
    pub structured_logging: bool,
    pub json_log_fmt: bool,
    pub flush_threshold: usize,
    pub max_message_size: Option<usize>,
}

/// The event comes from one of the transports: its module starts with the
/// name of one.
pub open spec fn from_transport(record: LogRecord) -> bool {
    record.module matches Some(m) && ("ureq"@.is_prefix_of(m@) || "reqwest"@.is_prefix_of(m@))
}

/// The line of the entry for an event: its message, or the event as a JSON
/// object where that is configured.
pub open spec fn entry_line(json_log_fmt: bool, record: LogRecord) -> Seq<char> {
    if json_log_fmt {
        event_json(record)
    } else {
        record.message@
    }
}

/// A line is longer than the maximum: there is a maximum, and the line has
/// more bytes in UTF-8.
pub open spec fn too_long(max_message_size: Option<usize>, line: Seq<char>) -> bool {
    max_message_size matches Some(max) && encode_utf8(line).len() > max
}

/// No line of the stream is longer than the maximum.
pub open spec fn within_limit(max_message_size: Option<usize>, s: Stream) -> bool {
    forall|j: int|
        0 <= j < s.values@.len() ==> !too_long(max_message_size, (#[trigger] s.values@[j]).1@)
}

/// No line of the batch is longer than the maximum.
pub open spec fn all_within_limit(max_message_size: Option<usize>, batch: Seq<Stream>) -> bool {
    forall|i: int| 0 <= i < batch.len() ==> within_limit(max_message_size, #[trigger] batch[i])
}

/// `s` is the entry for one event: a stream with the given labels and a
/// single sample.
pub open spec fn is_entry(s: Stream, labels: Pairs, timestamp: u128, line: Seq<char>) -> bool {
    &&& s.stream.pairs() == labels
    &&& s.values@.len() == 1
    &&& s.values@[0].0 == timestamp
    &&& s.values@[0].1@ == line
}

/// `s` is the entry that a sink with the configuration `c` makes for
/// `record`.
pub open spec fn is_entry_for(c: FenrirView, record: LogRecord, timestamp: u128, s: Stream) -> bool {
    is_entry(
        s,
        entry_pairs(
            c.include_framework,
            c.include_level,
            record.level,
            c.additional_tags,
            structured_pairs(c.structured_logging, record.key_values@),
        ),
        timestamp,
        entry_line(c.json_log_fmt, record),
    )
}

/// The payload of a batch in a format, or nothing where the batch cannot
/// be serialized.
pub open spec fn payload_of(format: SerializationFormat, batch: Seq<Stream>) -> Option<Seq<u8>> {
    match format {
        SerializationFormat::Disabled => Some(Seq::empty()),
        SerializationFormat::Json => if batch_encodable(batch) {
            Some(encode_utf8(streams_json(batch)))
        } else {
            None
        },
    }
}

/// `result` is what a flush of `batch` comes to: an encoding error where
/// the batch cannot be serialized, else a delivery error where the backend
/// cannot take the payload, else what the backend leaves to be done for
/// the payload.
pub open spec fn flush_result(
    format: SerializationFormat,
    backend: Backend,
    batch: Seq<Stream>,
    result: Result<Delivery, FlushError>,
) -> bool {
    match payload_of(format, batch) {
        None => result matches Err(FlushError::Encoding { .. }),
        Some(payload) => if backend.accepts() {
            result matches Ok(delivery) && backend.delivers(payload, delivery)
        } else {
            result matches Err(FlushError::Delivery { .. })
        },
    }
}

/// The sink takes the event in: it is not passed over, its structured data
/// and its line can be read and written, and the line is not too long.
pub open spec fn accepted(c: FenrirView, record: LogRecord) -> bool {
    &&& !from_transport(record)
    &&& c.structured_logging ==> failure_free(record.key_values@)
    &&& c.json_log_fmt ==> event_encodable(record)
    &&& !too_long(c.max_message_size, entry_line(c.json_log_fmt, record))
}

/// `intake` is what a sink with the configuration `c` makes of `record`,
/// read at the time `timestamp`.
pub open spec fn is_intake(c: FenrirView, record: LogRecord, timestamp: u128, intake: Intake) -> bool {
    if from_transport(record) {
        intake is Ignored
    } else if c.structured_logging && !failure_free(record.key_values@) {
        &&& intake matches Intake::KeyValues(e)
        &&& e.message@ == record.key_values@[first_failure(record.key_values@)]->message@
    } else if c.json_log_fmt && !event_encodable(record) {
        intake is Line
    } else if too_long(c.max_message_size, entry_line(c.json_log_fmt, record)) {
        intake is Dropped
    } else {
        intake matches Intake::Entry(s) && is_entry_for(c, record, timestamp, s)
    }
}

/// One step of a sink with the configuration `c`: while `before` waits in
/// the buffer, the event `record` taken in at the time `timestamp` leaves
/// `after` in the buffer and has the outcome `outcome`.
pub open spec fn log_step(
    c: FenrirView,
    before: Seq<Stream>,
    record: LogRecord,
    timestamp: u128,
    after: Seq<Stream>,
    outcome: LogOutcome,
) -> bool {
    if from_transport(record) {
        outcome is Ignored && after == before
    } else if c.structured_logging && !failure_free(record.key_values@) {
        &&& outcome matches LogOutcome::KeyValues(e)
        &&& e.message@ == record.key_values@[first_failure(record.key_values@)]->message@
        &&& after == before
    } else if c.json_log_fmt && !event_encodable(record) {
        outcome is Line && after == before
    } else if too_long(c.max_message_size, entry_line(c.json_log_fmt, record)) {
        outcome is Dropped && after == before
    } else if before.len() + 1 < c.flush_threshold {
        &&& outcome matches LogOutcome::Buffered(size)
        &&& size == before.len() + 1
        &&& after.len() == before.len() + 1
        &&& after.drop_last() == before
        &&& is_entry_for(c, record, timestamp, after.last())
    } else {
        &&& outcome matches LogOutcome::Flushed(flush)
        &&& flush.batch@.len() == before.len() + 1
        &&& flush.batch@.drop_last() == before
        &&& is_entry_for(c, record, timestamp, flush.batch@.last())
        &&& flush_result(c.serializer, c.backend, flush.batch@, flush.result)
        &&& after == Seq::<Stream>::empty()
    }
}

/// One explicit flush of a sink with the configuration `c`: while `before`
/// waits in the buffer, the flush leaves `after` in it and hands back `r`.
pub open spec fn flush_step(
    c: FenrirView,
    before: Seq<Stream>,
    after: Seq<Stream>,
    r: Option<Flush>,
) -> bool {
    &&& after == Seq::<Stream>::empty()
    &&& before.len() == 0 ==> r is None
    &&& before.len() > 0 ==> {
        &&& r matches Some(flush)
        &&& flush.batch@ == before
        &&& flush_result(c.serializer, c.backend, flush.batch@, flush.result)
    }
}

/// The sink. It is made by a `FenrirBuilder`, and can be shared between
/// threads: the entries that wait stand behind a lock.
#[derive(Debug)]
pub struct Fenrir {
    backend: Backend,
    additional_tags: Labels,
    serializer: SerializationFormat,
    include_level: bool,
    include_framework: bool,
    structured_logging: bool,
    json_log_fmt: bool,
    log_stream: RwLock<EntryBuffer>,
    flush_threshold: usize,
    max_message_size: Option<usize>,
}

impl View for Fenrir {
    type V = FenrirView;

    closed spec fn view(&self) -> FenrirView {
        FenrirView {
            backend: self.backend,
            additional_tags: self.additional_tags.pairs(),
            serializer: self.serializer,
            include_level: self.include_level,
            include_framework: self.include_framework,
            structured_logging: self.structured_logging,
            json_log_fmt: self.json_log_fmt,
            flush_threshold: self.flush_threshold,
            max_message_size: self.max_message_size,
        }
    }
}

impl Fenrir {
    /// Every sink has a threshold above zero.
    #[verifier::type_invariant]
    closed spec fn sound(self) -> bool {
        self.flush_threshold > 0
    }

    /// A sink with the given configuration and a buffer of its own, in
    /// which nothing waits.
    pub(crate) fn assemble(
        backend: Backend,
        additional_tags: Labels,
        serializer: SerializationFormat,
        include_level: bool,
        include_framework: bool,
        structured_logging: bool,
        json_log_fmt: bool,
        flush_threshold: usize,
        max_message_size: Option<usize>,
    ) -> (r: Fenrir)
        requires
            flush_threshold > 0,
        ensures
            r@ == (FenrirView {
                backend,
                additional_tags: additional_tags.pairs(),
                serializer,
                include_level,
                include_framework,
                structured_logging,
                json_log_fmt,
                flush_threshold,
                max_message_size,
            }),
    {
        Fenrir {
            backend,
            additional_tags,
            serializer,
            include_level,
            include_framework,
            structured_logging,
            json_log_fmt,
            log_stream: new_lock(EntryBuffer::new(flush_threshold)),
            flush_threshold,
            max_message_size,
        }
    }

    /// Whether the sink takes events of this level and target. It takes
    /// them all.
    pub fn enabled(&self, level: Level, target: &str) -> (r: bool)
        ensures
            r,
    {
        true
    }

    /// The backend that the sink delivers through.
    pub fn backend(&self) -> (r: &Backend)
        ensures
            *r == self@.backend,
    {
        &self.backend
    }

    /// The number of entries at which the sink flushes. It is above zero.
    pub fn threshold(&self) -> (n: usize)
        ensures
            n == self@.flush_threshold,
            n > 0,
    {
        proof {
            use_type_invariant(self);
        }
        self.flush_threshold
    }

    /// Serializes `batch` in the configured format and hands the payload
    /// to the backend.
    fn deliver(&self, batch: &Vec<Stream>) -> (r: Result<Delivery, FlushError>)
        ensures
            flush_result(self@.serializer, self@.backend, batch@, r),
    {
        let serialized = match self.serializer {
            SerializationFormat::Disabled => noop_serializer(batch),
            SerializationFormat::Json => json_serializer(batch),
        };
        match serialized {
            Ok(payload) => match self.backend.send(payload) {
                Ok(delivery) => Ok(delivery),
                Err(message) => Err(FlushError::Delivery { message }),
            },
            Err(message) => Err(FlushError::Encoding { message }),
        }
    }

    /// Makes the entry for a log event, read at the time `timestamp`
    /// (nanoseconds since the Unix epoch), or says why there is none.
    ///
    /// An event from the transport itself is passed over. Else the entry
    /// gets its labels and its line; where the structured data cannot be
    /// read or the line cannot be written, this is reported. A line that
    /// is longer than the maximum is dropped; one of exactly the maximum
    /// is kept.
    pub fn intake(&self, record: &LogRecord, timestamp: u128) -> (r: Intake)
        ensures
            is_intake(self@, *record, timestamp, r),
    {
        let transport = match &record.module {
            Some(m) => starts_with(m.as_str(), "ureq") || starts_with(m.as_str(), "reqwest"),
            None => false,
        };
        if transport || !self.enabled(record.level, record.target.as_str()) {
            return Intake::Ignored;
        }
        let labels = match entry_labels(
            self.include_framework,
            self.include_level,
            record.level,
            &self.additional_tags,
            self.structured_logging,
            &record.key_values,
        ) {
            Ok(labels) => labels,
            Err(e) => {
                return Intake::KeyValues(e);
            },
        };
        let line = if self.json_log_fmt {
            match serialized_event(record) {
                Ok(text) => text,
                Err(e) => {
                    return Intake::Line(e);
                },
            }
        } else {
            record.message.clone()
        };
        if let Some(max) = self.max_message_size {
            if line.as_str().as_bytes().len() > max {
                return Intake::Dropped;
            }
        }
        let mut values: Vec<(u128, String)> = Vec::new();
        values.push((timestamp, line));
        Intake::Entry(Stream { stream: labels, values })
    }

    /// Puts `entry` behind the entries that wait in `pending`. If that
    /// makes as many as the threshold asks for, all of them leave the
    /// buffer as one batch.
    fn enqueue(&self, pending: &mut EntryBuffer, entry: Stream) -> (r: (usize, Option<Vec<Stream>>))
        ensures
            r.0 == old(pending)@.len() + 1,
            r.0 < self@.flush_threshold ==> r.1 is None && final(pending)@ == old(pending)@.push(
                entry,
            ),
            r.0 >= self@.flush_threshold ==> final(pending)@ == Seq::<Stream>::empty() && (
            r.1 matches Some(batch) && batch@ == old(pending)@.push(entry)),
    {
        let size = pending.append(entry);
        if size >= self.flush_threshold {
            (size, Some(pending.drain()))
        } else {
            (size, None)
        }
    }

    /// Takes whatever waits in `pending`, if anything does.
    fn empty_out(pending: &mut EntryBuffer) -> (r: Option<Vec<Stream>>)
        ensures
            final(pending)@ == Seq::<Stream>::empty(),
            old(pending)@.len() == 0 ==> r is None,
            old(pending)@.len() > 0 ==> (r matches Some(batch) && batch@ == old(pending)@),
    {
        if pending.is_empty() {
            None
        } else {
            Some(pending.drain())
        }
    }

    /// Takes in one log event, read at the time `timestamp` (nanoseconds
    /// since the Unix epoch), with the entries that wait held in `pending`.
    ///
    /// Where the event gives no entry, nothing changes. Else the entry
    /// joins those that wait, and if that makes as many as the threshold
    /// asks for, all of them are flushed as one batch and the buffer is
    /// empty again.
    pub fn log_into(&self, pending: &mut EntryBuffer, record: &LogRecord, timestamp: u128) -> (outcome:
        LogOutcome)
        ensures
            log_step(self@, old(pending)@, *record, timestamp, final(pending)@, outcome),
    {
        match self.intake(record, timestamp) {
            Intake::Ignored => LogOutcome::Ignored,
            Intake::KeyValues(e) => LogOutcome::KeyValues(e),
            Intake::Line(message) => LogOutcome::Line(message),
            Intake::Dropped => LogOutcome::Dropped,
            Intake::Entry(entry) => {
                let (size, flushed) = self.enqueue(pending, entry);
                proof {
                    assert(old(pending)@.push(entry).drop_last() =~= old(pending)@);
                    assert(old(pending)@.push(entry).last() == entry);
                }
                match flushed {
                    Some(batch) => {
                        let result = self.deliver(&batch);
                        LogOutcome::Flushed(Flush { batch, result })
                    },
                    None => LogOutcome::Buffered(size),
                }
            },
        }
    }

    /// Flushes whatever waits in `pending`, however little. Where nothing
    /// waits, nothing is done. Else the entries leave the buffer as one
    /// batch, which is serialized and handed to the backend; the buffer is
    /// empty afterwards whatever became of the batch.
    pub fn flush_from(&self, pending: &mut EntryBuffer) -> (r: Option<Flush>)
        ensures
            flush_step(self@, old(pending)@, final(pending)@, r),
    {
        match Self::empty_out(pending) {
            Some(batch) => {
                let result = self.deliver(&batch);
                Some(Flush { batch, result })
            },
            None => None,
        }
    }

    /// Takes in one log event, read at the time `timestamp` (nanoseconds
    /// since the Unix epoch), with the entries that wait in the buffer of
    /// the sink itself.
    ///
    /// The buffer is shared, so other threads may have taken events in
    /// since this one last looked. The lock is held while the entry joins
    /// the buffer and while the batch leaves it; it is not held while the
    /// entry is made nor while the batch is serialized. The call is one
    /// step of the sink on whatever waited when the lock was taken.
    pub fn log(&self, record: &LogRecord, timestamp: u128) -> (outcome: LogOutcome)
        ensures
            exists|before: Seq<Stream>, after: Seq<Stream>| #[trigger]
                log_step(self@, before, *record, timestamp, after, outcome),
    {
        let ghost none = Seq::<Stream>::empty();
        match self.intake(record, timestamp) {
            Intake::Ignored => {
                let outcome = LogOutcome::Ignored;
                assert(log_step(self@, none, *record, timestamp, none, outcome));
                outcome
            },
            Intake::KeyValues(e) => {
                let outcome = LogOutcome::KeyValues(e);
                assert(log_step(self@, none, *record, timestamp, none, outcome));
                outcome
            },
            Intake::Line(message) => {
                let outcome = LogOutcome::Line(message);
                assert(log_step(self@, none, *record, timestamp, none, outcome));
                outcome
            },
            Intake::Dropped => {
                let outcome = LogOutcome::Dropped;
                assert(log_step(self@, none, *record, timestamp, none, outcome));
                outcome
            },
            Intake::Entry(entry) => {
                let ghost mut before = none;
                let ghost mut after = none;
                let (size, flushed) = {
                    let mut guard = lock_write(&self.log_stream);
                    let pending = guarded(&mut guard);
                    proof {
                        before = pending@;
                    }
                    let queued = self.enqueue(pending, entry);
                    proof {
                        after = pending@;
                    }
                    queued
                };
                proof {
                    assert(before.push(entry).drop_last() =~= before);
                    assert(before.push(entry).last() == entry);
                }
                let outcome = match flushed {
                    Some(batch) => {
                        let result = self.deliver(&batch);
                        LogOutcome::Flushed(Flush { batch, result })
                    },
                    None => LogOutcome::Buffered(size),
                };
                assert(log_step(self@, before, *record, timestamp, after, outcome));
                outcome
            },
        }
    }

    /// Flushes whatever waits in the buffer of the sink itself. The lock
    /// is held while the batch leaves the buffer, not while it is
    /// serialized. The call is one flush on whatever waited when the lock
    /// was taken.
    pub fn flush(&self) -> (r: Option<Flush>)
        ensures
            exists|before: Seq<Stream>, after: Seq<Stream>| #[trigger]
                flush_step(self@, before, after, r),
    {
        let ghost mut before = Seq::<Stream>::empty();
        let ghost mut after = Seq::<Stream>::empty();
        let taken = {
            let mut guard = lock_write(&self.log_stream);
            let pending = guarded(&mut guard);
            proof {
                before = pending@;
            }
            let batch = Self::empty_out(pending);
            proof {
                after = pending@;
            }
            batch
        };
        let r = match taken {
            Some(batch) => {
                let result = self.deliver(&batch);
                Some(Flush { batch, result })
            },
            None => None,
        };
        assert(flush_step(self@, before, after, r));
        r
    }
}

/// A run of a sink with the configuration `c` in which nothing but log
/// events touches the buffer: `buffers[i]` waits before the event
/// `records[i]`, which is taken in at `times[i]` with `outcomes[i]` and
/// leaves `buffers[i + 1]`.
pub open spec fn is_run(
    c: FenrirView,
    buffers: Seq<Seq<Stream>>,
    records: Seq<LogRecord>,
    times: Seq<u128>,
    outcomes: Seq<LogOutcome>,
) -> bool {
    &&& buffers.len() == records.len() + 1
    &&& times.len() == records.len()
    &&& outcomes.len() == records.len()
    &&& forall|i: int|
        0 <= i < records.len() ==> #[trigger] log_step(
            c,
            buffers[i],
            records[i],
            times[i],
            buffers[i + 1],
            outcomes[i],
        )
}

/// While fewer events than the threshold have been taken in, each of them
/// waits: after `k` events that a sink with an empty buffer accepts, `k`
/// entries wait, one for each event and in their order, and nothing was
/// flushed.
pub proof fn lemma_entries_wait_below_threshold(
    c: FenrirView,
    buffers: Seq<Seq<Stream>>,
    records: Seq<LogRecord>,
    times: Seq<u128>,
    outcomes: Seq<LogOutcome>,
    k: int,
)
    requires
        is_run(c, buffers, records, times, outcomes),
        buffers[0].len() == 0,
        0 <= k <= records.len(),
        k < c.flush_threshold,
        forall|i: int| 0 <= i < k ==> accepted(c, #[trigger] records[i]),
    ensures
        buffers[k].len() == k,
        forall|i: int|
            0 <= i < k ==> is_entry_for(c, records[i], times[i], #[trigger] buffers[k][i]),
        forall|i: int| 0 <= i < k ==> (#[trigger] outcomes[i]) is Buffered,
    decreases k,
{
    if k > 0 {
        lemma_entries_wait_below_threshold(c, buffers, records, times, outcomes, k - 1);
        let before = buffers[k - 1];
        let after = buffers[k];
        assert(log_step(c, before, records[k - 1], times[k - 1], after, outcomes[k - 1]));
        assert(accepted(c, records[k - 1]));
        assert forall|i: int| 0 <= i < k implies is_entry_for(
            c,
            records[i],
            times[i],
            #[trigger] after[i],
        ) by {
            if i < k - 1 {
                assert(after[i] == after.drop_last()[i]);
            }
        }
    }
}

/// Threshold flush. When a sink with an empty buffer accepts as many
/// events as its threshold asks for, the last of them, and no earlier one,
/// triggers a flush; the batch of that flush holds one entry for each
/// event, in their order; and the buffer is empty right after.
pub proof fn lemma_threshold_flush(
    c: FenrirView,
    buffers: Seq<Seq<Stream>>,
    records: Seq<LogRecord>,
    times: Seq<u128>,
    outcomes: Seq<LogOutcome>,
)
    requires
        is_run(c, buffers, records, times, outcomes),
        buffers[0].len() == 0,
        records.len() > 0,
        records.len() == c.flush_threshold,
        forall|i: int| 0 <= i < records.len() ==> accepted(c, #[trigger] records[i]),
    ensures
        forall|i: int| 0 <= i < records.len() - 1 ==> (#[trigger] outcomes[i]) is Buffered,
        outcomes.last() matches LogOutcome::Flushed(flush) && flush.batch@.len() == records.len()
            && (forall|i: int|
            0 <= i < records.len() ==> is_entry_for(
                c,
                records[i],
                times[i],
                #[trigger] flush.batch@[i],
            )) && flush_result(c.serializer, c.backend, flush.batch@, flush.result),
        buffers.last().len() == 0,
{
    let n = records.len() as int;
    lemma_entries_wait_below_threshold(c, buffers, records, times, outcomes, n - 1);
    let before = buffers[n - 1];
    assert(log_step(c, before, records[n - 1], times[n - 1], buffers[n], outcomes[n - 1]));
    assert(accepted(c, records[n - 1]));
    match outcomes[n - 1] {
        LogOutcome::Flushed(flush) => {
            assert forall|i: int| 0 <= i < n implies is_entry_for(
                c,
                records[i],
                times[i],
                #[trigger] flush.batch@[i],
            ) by {
                if i < n - 1 {
                    assert(flush.batch@[i] == flush.batch@.drop_last()[i]);
                    assert(is_entry_for(c, records[i], times[i], before[i]));
                } else {
                    assert(flush.batch@[i] == flush.batch@.last());
                }
            }
        },
        _ => {},
    }
}

/// A line that is too long never waits. If no entry that waits before a
/// log event has a line longer than the maximum, then none that waits
/// after it has one, and none in the batch that the event may flush.
pub proof fn lemma_long_lines_never_wait(
    c: FenrirView,
    before: Seq<Stream>,
    record: LogRecord,
    timestamp: u128,
    after: Seq<Stream>,
    outcome: LogOutcome,
)
    requires
        log_step(c, before, record, timestamp, after, outcome),
        all_within_limit(c.max_message_size, before),
    ensures
        all_within_limit(c.max_message_size, after),
        outcome matches LogOutcome::Flushed(flush) ==> all_within_limit(
            c.max_message_size,
            flush.batch@,
        ),
{
    if accepted(c, record) {
        let grown = if before.len() + 1 < c.flush_threshold {
            after
        } else {
            outcome->Flushed_0.batch@
        };
        assert(grown.drop_last() == before);
        assert(is_entry_for(c, record, timestamp, grown.last()));
        assert forall|i: int| 0 <= i < grown.len() implies within_limit(
            c.max_message_size,
            #[trigger] grown[i],
        ) by {
            if i < grown.len() - 1 {
                assert(grown[i] == grown.drop_last()[i]);
            } else {
                assert(grown[i] == grown.last());
            }
        }
    }
}

/// Max message size. In a run that starts with an empty buffer, no batch
/// that is flushed holds a line longer than the maximum.
pub proof fn lemma_no_long_line_is_flushed(
    c: FenrirView,
    buffers: Seq<Seq<Stream>>,
    records: Seq<LogRecord>,
    times: Seq<u128>,
    outcomes: Seq<LogOutcome>,
    k: int,
)
    requires
        is_run(c, buffers, records, times, outcomes),
        buffers[0].len() == 0,
        0 <= k < records.len(),
    ensures
        all_within_limit(c.max_message_size, buffers[k]),
        all_within_limit(c.max_message_size, buffers[k + 1]),
        outcomes[k] matches LogOutcome::Flushed(flush) ==> all_within_limit(
            c.max_message_size,
            flush.batch@,
        ),
    decreases k,
{
    if k > 0 {
        lemma_no_long_line_is_flushed(c, buffers, records, times, outcomes, k - 1);
    }
    assert(log_step(c, buffers[k], records[k], times[k], buffers[k + 1], outcomes[k]));
    lemma_long_lines_never_wait(c, buffers[k], records[k], times[k], buffers[k + 1], outcomes[k]);
}

} // verus!
