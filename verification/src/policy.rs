//! Which labels an entry gets: the derived ones first, then the static tags
//! of the configuration, then the structured data of the event. Whatever
//! comes later replaces an earlier value under the same key.
use crate::labels::{last_wins, lemma_put, lemma_put_all, pairs_map, put, put_all, Labels, Pairs};
use crate::record::{failure_free, first_failure, kv_pairs, KvEntry, KvError, Level};
use crate::visitor::LokiVisitor;
use vstd::prelude::*;
use vstd::string::*;

verus! {

/// The key of the label that marks the logging framework.
pub open spec fn framework_key() -> Seq<char> {
    "logging_framework"@
}

/// The value of the label that marks the logging framework.
pub open spec fn framework_value() -> Seq<char> {
    "fenrir"@
}

/// The key of the label that carries the level.
pub open spec fn level_key() -> Seq<char> {
    "level"@
}

/// The two keys of the derived labels differ.
pub proof fn lemma_derived_keys_differ()
    ensures
        framework_key() != level_key(),
{
    reveal_strlit("logging_framework");
    reveal_strlit("level");
    assert(framework_key().len() == 17);
    assert(level_key().len() == 5);
}

/// The labels that follow from the configuration and the level alone.
pub open spec fn derived_pairs(include_framework: bool, include_level: bool, level: Level) -> Pairs {
    let none: Pairs = Seq::empty();
    let first = if include_framework {
        put(none, framework_key(), framework_value())
    } else {
        none
    };
    if include_level {
        put(first, level_key(), level.name())
    } else {
        first
    }
}

/// The labels of an entry: the derived ones, overlaid by the static tags,
/// overlaid by the structured data of the event.
pub open spec fn entry_pairs(
    include_framework: bool,
    include_level: bool,
    level: Level,
    tags: Pairs,
    structured: Pairs,
) -> Pairs {
    put_all(put_all(derived_pairs(include_framework, include_level, level), tags), structured)
}

/// The structured data that counts for an entry: what a visitor collects
/// from it, each key once with its last value; none where structured
/// logging is switched off.
pub open spec fn structured_pairs(structured_logging: bool, key_values: Seq<KvEntry>) -> Pairs {
    if structured_logging {
        put_all(Seq::empty(), kv_pairs(key_values))
    } else {
        Seq::empty()
    }
}

/// Label precedence. Under every key the labels of an entry hold the value
/// of the structured data if that has the key (its last value, where it has
/// several); else the value of the static tags if they have the key; else
/// the derived value, which exists only for the two derived keys and only
/// where the configuration asks for them. No other key is present.
pub proof fn lemma_label_precedence(
    include_framework: bool,
    include_level: bool,
    level: Level,
    tags: Pairs,
    structured: Pairs,
    k: Seq<char>,
)
    ensures
        ({
            let m = pairs_map(
                entry_pairs(include_framework, include_level, level, tags, structured),
            );
            if last_wins(structured).dom().contains(k) {
                m.dom().contains(k) && m[k] == last_wins(structured)[k]
            } else if last_wins(tags).dom().contains(k) {
                m.dom().contains(k) && m[k] == last_wins(tags)[k]
            } else if include_level && k == level_key() {
                m.dom().contains(k) && m[k] == level.name()
            } else if include_framework && k == framework_key() {
                m.dom().contains(k) && m[k] == framework_value()
            } else {
                !m.dom().contains(k)
            }
        }),
{
    let none: Pairs = Seq::empty();
    lemma_derived_keys_differ();
    assert(pairs_map(none) =~= Map::<Seq<char>, Seq<char>>::empty());
    lemma_put(none, framework_key(), framework_value());
    let first = if include_framework {
        put(none, framework_key(), framework_value())
    } else {
        none
    };
    lemma_put(first, level_key(), level.name());
    let derived = derived_pairs(include_framework, include_level, level);
    lemma_put_all(derived, tags);
    lemma_put_all(put_all(derived, tags), structured);
}

/// Computes the labels of an entry. The structured data of the event is
/// read only where structured logging is switched on; a failure in it is
/// handed back and no labels are made.
pub fn entry_labels(
    include_framework: bool,
    include_level: bool,
    level: Level,
    tags: &Labels,
    structured_logging: bool,
    key_values: &Vec<KvEntry>,
) -> (r: Result<Labels, KvError>)
    ensures
        match r {
            Ok(labels) => {
                &&& structured_logging ==> failure_free(key_values@)
                &&& labels.pairs() == entry_pairs(
                    include_framework,
                    include_level,
                    level,
                    tags.pairs(),
                    structured_pairs(structured_logging, key_values@),
                )
            },
            Err(e) => {
                &&& structured_logging
                &&& !failure_free(key_values@)
                &&& e.message@ == key_values@[first_failure(key_values@)]->message@
            },
        },
{
    let mut labels = Labels::new();
    if include_framework {
        labels.insert(String::from_str("logging_framework"), String::from_str("fenrir"));
    }
    if include_level {
        labels.insert(String::from_str("level"), String::from_str(level.as_str()));
    }
    labels.extend(tags);
    if structured_logging {
        let mut visitor = LokiVisitor::new(key_values.len());
        match visitor.read_kv(key_values) {
            Ok(values) => {
                labels.extend(values);
            },
            Err(e) => {
                return Err(e);
            },
        }
    } else {
        assert(put_all(labels.pairs(), Seq::empty()) == labels.pairs());
    }
    Ok(labels)
}

} // verus!
