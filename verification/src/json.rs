//! The JSON texts that leave the library: the body of a push request and,
//! on demand, the line of a single entry.
//!
//! The shape of both documents is laid down here. How one string is written
//! as a JSON string, with its quotes and escapes, is left to `serde_json`.
use crate::labels::{Labels, Pairs};
use crate::record::LogRecord;
use crate::text::{decimal, decimal_string};
use vstd::prelude::*;
use vstd::string::*;
use vstd::utf8::*;

verus! {

/// The error type of `serde_json`, carried through unread.
#[verifier::external_type_specification]
#[verifier::external_body]
pub struct ExJsonError(serde_json::Error);

/// What `serde_json::to_string` returns for a string slice holding the
/// characters `s`: the JSON string, quotes included, or nothing where it
/// reports an error.
pub uninterp spec fn json_string(s: Seq<char>) -> Option<Seq<char>>;

/// Calls `serde_json::to_string` on a string slice. The claim is only that
/// the outcome is the same whenever the characters are the same, so that it
/// can be named: `json_string`.
#[verifier::external_body]
fn to_json_string(s: &str) -> (r: Result<String, serde_json::Error>)
    ensures
        match r {
            Ok(t) => json_string(s@) == Some(t@),
            Err(_) => json_string(s@) is None,
        },
{
    serde_json::to_string(s)
}

/// Renders an error of `serde_json` through its `Display` impl
/// (`to_string`). Nothing is claimed of the text.
#[verifier::external_body]
fn json_error_text(e: &serde_json::Error) -> (r: String) {
    e.to_string()
}

/// `s` can be written as a JSON string.
pub open spec fn encodable(s: Seq<char>) -> bool {
    json_string(s) is Some
}

/// `s` written as a JSON string, where that can be done.
pub open spec fn quoted(s: Seq<char>) -> Seq<char> {
    json_string(s)->0
}

/// The items in order with a comma between neighbours.
pub open spec fn joined(items: Seq<Seq<char>>) -> Seq<char>
    decreases items.len(),
{
    if items.len() == 0 {
        Seq::empty()
    } else if items.len() == 1 {
        items[0]
    } else {
        joined(items.drop_last()) + ","@ + items.last()
    }
}

/// What one more item adds to a joined list.
pub proof fn lemma_joined_step(items: Seq<Seq<char>>, i: int)
    requires
        0 <= i < items.len(),
    ensures
        joined(items.take(i + 1)) == if i == 0 {
            items[0]
        } else {
            joined(items.take(i)) + ","@ + items[i]
        },
{
    let head = items.take(i + 1);
    assert(head.last() == items[i]);
    assert(head.drop_last() =~= items.take(i));
}

/// One stream of a push request: a set of labels and the samples that
/// share it, each a time in nanoseconds since the Unix epoch and a line.
#[derive(Debug)]
pub struct Stream {
    /// The labels of every sample of the stream.
    pub stream: Labels,
    /// The samples: time and line.
    pub values: Vec<(u128, String)>,
}

/// The members of the JSON object of a set of labels.
pub open spec fn label_members(p: Pairs) -> Seq<Seq<char>> {
    Seq::new(p.len(), |i: int| quoted(p[i].0) + ":"@ + quoted(p[i].1))
}

/// Every key and value of `p` can be written as a JSON string.
pub open spec fn pairs_encodable(p: Pairs) -> bool {
    forall|i: int| 0 <= i < p.len() ==> encodable((#[trigger] p[i]).0) && encodable(p[i].1)
}

/// A set of labels as a JSON object.
pub open spec fn labels_json(p: Pairs) -> Seq<char> {
    "{"@ + joined(label_members(p)) + "}"@
}

/// One sample as a JSON array of two strings: the time as a decimal
/// numeral, then the line.
pub open spec fn sample_json(sample: (u128, String)) -> Seq<char> {
    "["@ + quoted(decimal(sample.0 as nat)) + ","@ + quoted(sample.1@) + "]"@
}

/// The time and the line of a sample can be written as JSON strings.
pub open spec fn sample_encodable(sample: (u128, String)) -> bool {
    encodable(decimal(sample.0 as nat)) && encodable(sample.1@)
}

/// The samples of a stream, each as its JSON array.
pub open spec fn sample_items(values: Seq<(u128, String)>) -> Seq<Seq<char>> {
    Seq::new(values.len(), |i: int| sample_json(values[i]))
}

/// Every sample of `values` can be written.
pub open spec fn samples_encodable(values: Seq<(u128, String)>) -> bool {
    forall|i: int| 0 <= i < values.len() ==> sample_encodable(#[trigger] values[i])
}

/// The samples of a stream as a JSON array.
pub open spec fn samples_json(values: Seq<(u128, String)>) -> Seq<char> {
    "["@ + joined(sample_items(values)) + "]"@
}

/// One stream as a JSON object with the members `stream` and `values`.
pub open spec fn stream_json(s: Stream) -> Seq<char> {
    "{\"stream\":"@ + labels_json(s.stream.pairs()) + ",\"values\":"@ + samples_json(s.values@)
        + "}"@
}

/// Every string of the stream can be written.
pub open spec fn stream_encodable(s: Stream) -> bool {
    pairs_encodable(s.stream.pairs()) && samples_encodable(s.values@)
}

/// The streams of a batch, each as its JSON object.
pub open spec fn stream_items(batch: Seq<Stream>) -> Seq<Seq<char>> {
    Seq::new(batch.len(), |i: int| stream_json(batch[i]))
}

/// Every string of the batch can be written.
pub open spec fn batch_encodable(batch: Seq<Stream>) -> bool {
    forall|i: int| 0 <= i < batch.len() ==> stream_encodable(#[trigger] batch[i])
}

/// The body of a push request: an object whose one member, `streams`, is
/// the array of the streams of the batch, in order.
pub open spec fn streams_json(batch: Seq<Stream>) -> Seq<char> {
    "{\"streams\":["@ + joined(stream_items(batch)) + "]}"@
}

/// Writes `s` as a JSON string.
pub fn quote(s: &str) -> (r: Result<String, String>)
    ensures
        r is Ok <==> encodable(s@),
        r matches Ok(t) ==> t@ == quoted(s@),
{
    match to_json_string(s) {
        Ok(t) => Ok(t),
        Err(e) => Err(json_error_text(&e)),
    }
}

/// Writes a set of labels as a JSON object, the pairs in their order.
pub fn encode_labels(labels: &Labels) -> (r: Result<String, String>)
    ensures
        r is Ok <==> pairs_encodable(labels.pairs()),
        r matches Ok(t) ==> t@ == labels_json(labels.pairs()),
{
    let ghost p = labels.pairs();
    let ghost items = label_members(p);
    let n = labels.len();
    let mut out = String::from_str("{");
    let mut i: usize = 0;
    proof {
        assert(items.take(0) =~= Seq::<Seq<char>>::empty());
        assert(out@ =~= "{"@ + joined(items.take(0)));
    }
    while i < n
        invariant
            i <= n,
            n == p.len(),
            p == labels.pairs(),
            items == label_members(p),
            forall|j: int| 0 <= j < i ==> encodable((#[trigger] p[j]).0) && encodable(p[j].1),
            out@ == "{"@ + joined(items.take(i as int)),
        decreases n - i,
    {
        let key = match quote(labels.key_at(i)) {
            Ok(t) => t,
            Err(e) => {
                return Err(e);
            },
        };
        let value = match quote(labels.value_at(i)) {
            Ok(t) => t,
            Err(e) => {
                return Err(e);
            },
        };
        if i > 0 {
            out.append(",");
        }
        out.append(key.as_str());
        out.append(":");
        out.append(value.as_str());
        proof {
            lemma_joined_step(items, i as int);
            assert(items[i as int] == quoted(p[i as int].0) + ":"@ + quoted(p[i as int].1));
            assert(out@ =~= "{"@ + joined(items.take(i as int + 1)));
        }
        i += 1;
    }
    proof {
        assert(items.take(n as int) =~= items);
    }
    out.append("}");
    Ok(out)
}

/// Writes one sample as a JSON array of two strings.
pub fn encode_sample(sample: &(u128, String)) -> (r: Result<String, String>)
    ensures
        r is Ok <==> sample_encodable(*sample),
        r matches Ok(t) ==> t@ == sample_json(*sample),
{
    let time = match quote(decimal_string(sample.0).as_str()) {
        Ok(t) => t,
        Err(e) => {
            return Err(e);
        },
    };
    let line = match quote(sample.1.as_str()) {
        Ok(t) => t,
        Err(e) => {
            return Err(e);
        },
    };
    let mut out = String::from_str("[");
    out.append(time.as_str());
    out.append(",");
    out.append(line.as_str());
    out.append("]");
    Ok(out)
}

/// Writes the samples of a stream as a JSON array, in order.
pub fn encode_samples(values: &Vec<(u128, String)>) -> (r: Result<String, String>)
    ensures
        r is Ok <==> samples_encodable(values@),
        r matches Ok(t) ==> t@ == samples_json(values@),
{
    let ghost items = sample_items(values@);
    let n = values.len();
    let mut out = String::from_str("[");
    let mut i: usize = 0;
    proof {
        assert(items.take(0) =~= Seq::<Seq<char>>::empty());
        assert(out@ =~= "["@ + joined(items.take(0)));
    }
    while i < n
        invariant
            i <= n,
            n == values@.len(),
            items == sample_items(values@),
            forall|j: int| 0 <= j < i ==> sample_encodable(#[trigger] values@[j]),
            out@ == "["@ + joined(items.take(i as int)),
        decreases n - i,
    {
        let item = match encode_sample(&values[i]) {
            Ok(t) => t,
            Err(e) => {
                return Err(e);
            },
        };
        if i > 0 {
            out.append(",");
        }
        out.append(item.as_str());
        proof {
            lemma_joined_step(items, i as int);
            assert(out@ =~= "["@ + joined(items.take(i as int + 1)));
        }
        i += 1;
    }
    proof {
        assert(items.take(n as int) =~= items);
    }
    out.append("]");
    Ok(out)
}

/// Writes one stream as a JSON object.
pub fn encode_stream(s: &Stream) -> (r: Result<String, String>)
    ensures
        r is Ok <==> stream_encodable(*s),
        r matches Ok(t) ==> t@ == stream_json(*s),
{
    let labels = match encode_labels(&s.stream) {
        Ok(t) => t,
        Err(e) => {
            return Err(e);
        },
    };
    let values = match encode_samples(&s.values) {
        Ok(t) => t,
        Err(e) => {
            return Err(e);
        },
    };
    let mut out = String::from_str("{\"stream\":");
    out.append(labels.as_str());
    out.append(",\"values\":");
    out.append(values.as_str());
    out.append("}");
    Ok(out)
}

/// Writes a batch as the text of a push request's body.
pub fn encode_streams(batch: &Vec<Stream>) -> (r: Result<String, String>)
    ensures
        r is Ok <==> batch_encodable(batch@),
        r matches Ok(t) ==> t@ == streams_json(batch@),
{
    let ghost items = stream_items(batch@);
    let n = batch.len();
    let mut out = String::from_str("{\"streams\":[");
    let mut i: usize = 0;
    proof {
        assert(items.take(0) =~= Seq::<Seq<char>>::empty());
        assert(out@ =~= "{\"streams\":["@ + joined(items.take(0)));
    }
    while i < n
        invariant
            i <= n,
            n == batch@.len(),
            items == stream_items(batch@),
            forall|j: int| 0 <= j < i ==> stream_encodable(#[trigger] batch@[j]),
            out@ == "{\"streams\":["@ + joined(items.take(i as int)),
        decreases n - i,
    {
        let item = match encode_stream(&batch[i]) {
            Ok(t) => t,
            Err(e) => {
                return Err(e);
            },
        };
        if i > 0 {
            out.append(",");
        }
        out.append(item.as_str());
        proof {
            lemma_joined_step(items, i as int);
            assert(out@ =~= "{\"streams\":["@ + joined(items.take(i as int + 1)));
        }
        i += 1;
    }
    proof {
        assert(items.take(n as int) =~= items);
    }
    out.append("]}");
    Ok(out)
}

/// The JSON serializer: the body of a push request for `batch`, as UTF-8
/// bytes. It fails exactly where some string of the batch cannot be
/// written as a JSON string, and then hands back the text of the error.
pub fn json_serializer(batch: &Vec<Stream>) -> (r: Result<Vec<u8>, String>)
    ensures
        r is Ok <==> batch_encodable(batch@),
        r matches Ok(bytes) ==> bytes@ == encode_utf8(streams_json(batch@)),
{
    match encode_streams(batch) {
        Ok(text) => Ok(text.as_str().as_bytes_vec()),
        Err(e) => Err(e),
    }
}

/// The serializer that serializes nothing: every batch gives no bytes.
pub fn noop_serializer(batch: &Vec<Stream>) -> (r: Result<Vec<u8>, String>)
    ensures
        r matches Ok(bytes) && bytes@ == Seq::<u8>::empty(),
{
    Ok(Vec::new())
}

/// An optional string as a JSON value: the string, or `null`.
pub open spec fn optional_quoted(s: Option<String>) -> Seq<char> {
    match s {
        Some(t) => quoted(t@),
        None => "null"@,
    }
}

/// An optional number as a JSON value: its decimal numeral, or `null`.
pub open spec fn optional_number(n: Option<u32>) -> Seq<char> {
    match n {
        Some(v) => decimal(v as nat),
        None => "null"@,
    }
}

/// An optional string can be written: it is absent or encodable.
pub open spec fn optional_encodable(s: Option<String>) -> bool {
    s matches Some(t) ==> encodable(t@)
}

/// Every string of the event can be written as a JSON string.
pub open spec fn event_encodable(record: LogRecord) -> bool {
    &&& optional_encodable(record.file)
    &&& optional_encodable(record.module)
    &&& encodable(record.level.name())
    &&& encodable(record.target@)
    &&& encodable(record.message@)
}

/// A log event as one JSON object with the members `file`, `line`,
/// `module`, `level`, `target` and `message`, in this order.
pub open spec fn event_json(record: LogRecord) -> Seq<char> {
    "{\"file\":"@ + optional_quoted(record.file) + ",\"line\":"@ + optional_number(record.line)
        + ",\"module\":"@ + optional_quoted(record.module) + ",\"level\":"@ + quoted(
        record.level.name(),
    ) + ",\"target\":"@ + quoted(record.target@) + ",\"message\":"@ + quoted(record.message@)
        + "}"@
}

/// Writes an optional string as a JSON value.
pub fn encode_optional(s: &Option<String>) -> (r: Result<String, String>)
    ensures
        r is Ok <==> optional_encodable(*s),
        r matches Ok(t) ==> t@ == optional_quoted(*s),
{
    match s {
        Some(t) => quote(t.as_str()),
        None => Ok(String::from_str("null")),
    }
}

/// Writes a log event as a JSON object: the structured form of a line.
pub fn serialized_event(record: &LogRecord) -> (r: Result<String, String>)
    ensures
        r is Ok <==> event_encodable(*record),
        r matches Ok(t) ==> t@ == event_json(*record),
{
    let file = match encode_optional(&record.file) {
        Ok(t) => t,
        Err(e) => {
            return Err(e);
        },
    };
    let line = match record.line {
        Some(v) => decimal_string(v as u128),
        None => String::from_str("null"),
    };
    let module = match encode_optional(&record.module) {
        Ok(t) => t,
        Err(e) => {
            return Err(e);
        },
    };
    let level = match quote(record.level.as_str()) {
        Ok(t) => t,
        Err(e) => {
            return Err(e);
        },
    };
    let target = match quote(record.target.as_str()) {
        Ok(t) => t,
        Err(e) => {
            return Err(e);
        },
    };
    let message = match quote(record.message.as_str()) {
        Ok(t) => t,
        Err(e) => {
            return Err(e);
        },
    };
    let mut out = String::from_str("{\"file\":");
    out.append(file.as_str());
    out.append(",\"line\":");
    out.append(line.as_str());
    out.append(",\"module\":");
    out.append(module.as_str());
    out.append(",\"level\":");
    out.append(level.as_str());
    out.append(",\"target\":");
    out.append(target.as_str());
    out.append(",\"message\":");
    out.append(message.as_str());
    out.append("}");
    Ok(out)
}

} // verus!
