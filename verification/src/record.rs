//! What the sink is told of one log event.
use crate::labels::Pairs;
use vstd::prelude::*;

verus! {

/// The severity of a log event.
#[derive(Clone, Copy, Debug, PartialEq, Eq, Structural)]
pub enum Level {
    Error,
    Warn,
    Info,
    Debug,
    Trace,
}

impl Level {
    /// The name under which the level is sent, in capital letters.
    pub open spec fn name(self) -> Seq<char> {
        match self {
            Level::Error => "ERROR"@,
            Level::Warn => "WARN"@,
            Level::Info => "INFO"@,
            Level::Debug => "DEBUG"@,
            Level::Trace => "TRACE"@,
        }
    }

    /// The name of the level, in capital letters.
    pub fn as_str(&self) -> (r: &'static str)
        ensures
            r@ == self.name(),
    {
        match self {
            Level::Error => "ERROR",
            Level::Warn => "WARN",
            Level::Info => "INFO",
            Level::Debug => "DEBUG",
            Level::Trace => "TRACE",
        }
    }
}

/// One step of walking the structured data of a log event: a key with its
/// value, or the failure that the source of the data reported at that point.
#[derive(Debug)]
pub enum KvEntry {
    Pair { key: String, value: String },
    Failure { message: String },
}

/// The structured data of a log event could not be read.
#[derive(Debug)]
pub struct KvError {
    pub message: String,
}

/// No step of `s` is a failure.
pub open spec fn failure_free(s: Seq<KvEntry>) -> bool {
    forall|i: int| 0 <= i < s.len() ==> (#[trigger] s[i]) is Pair
}

/// `i` is the place of the first failure in `s`.
pub open spec fn is_first_failure(s: Seq<KvEntry>, i: int) -> bool {
    &&& 0 <= i < s.len()
    &&& s[i] is Failure
    &&& forall|j: int| 0 <= j < i ==> (#[trigger] s[j]) is Pair
}

/// The place of the first failure in `s`, if it has one.
pub open spec fn first_failure(s: Seq<KvEntry>) -> int {
    choose|i: int| is_first_failure(s, i)
}

/// The keys and values of `s` in order, its failures left out.
pub open spec fn kv_pairs(s: Seq<KvEntry>) -> Pairs
    decreases s.len(),
{
    if s.len() == 0 {
        Seq::empty()
    } else {
        match s.last() {
            KvEntry::Pair { key, value } => kv_pairs(s.drop_last()).push((key@, value@)),
            KvEntry::Failure { .. } => kv_pairs(s.drop_last()),
        }
    }
}

/// A list has at most one first failure, and has one unless it is free of
/// failures.
pub proof fn lemma_first_failure(s: Seq<KvEntry>, i: int)
    requires
        is_first_failure(s, i),
    ensures
        first_failure(s) == i,
        !failure_free(s),
{
    let c = first_failure(s);
    assert(is_first_failure(s, c));
    if c < i {
        assert(s[c] is Pair);
    } else if i < c {
        assert(s[i] is Pair);
    }
    assert(!(s[i] is Pair));
}

/// A log event as the logging facade hands it over.
#[derive(Debug)]
pub struct LogRecord {
    /// The severity of the event.
    pub level: Level,
    /// The target that the event names.
    pub target: String,
    /// The rendered message.
    pub message: String,
    /// The module that the event comes from, if known.
    pub module: Option<String>,
    /// The source file that the event comes from, if known.
    pub file: Option<String>,
    /// The line in that file, if known.
    pub line: Option<u32>,
    /// The structured data that came with the event, as its source gave it.
    pub key_values: Vec<KvEntry>,
}

} // verus!
