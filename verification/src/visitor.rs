//! Collecting the structured data of one log event.
use crate::labels::{put, put_all, Labels};
use crate::record::{
    failure_free, first_failure, is_first_failure, kv_pairs, lemma_first_failure, KvEntry, KvError,
};
use vstd::prelude::*;
use vstd::string::*;

verus! {

/// Walks the structured data of a log event and keeps what it finds as
/// labels. A key that comes twice keeps the later value.
pub struct LokiVisitor {
    values: Labels,
}

impl LokiVisitor {
    /// The labels collected so far.
    pub closed spec fn collected(self) -> Labels {
        self.values
    }

    /// A visitor that has seen nothing, with room for `count` labels.
    pub fn new(count: usize) -> (r: Self)
        ensures
            r.collected().pairs() == Seq::<(Seq<char>, Seq<char>)>::empty(),
    {
        Self { values: Labels::with_capacity(count) }
    }

    /// The labels collected so far.
    pub fn values(&self) -> (r: &Labels)
        ensures
            *r == self.collected(),
    {
        &self.values
    }

    /// Takes one key with its value. This never fails.
    pub fn visit_pair(&mut self, key: String, value: String) -> (r: Result<(), KvError>)
        ensures
            r is Ok,
            final(self).collected().pairs() == put(old(self).collected().pairs(), key@, value@),
    {
        self.values.insert(key, value);
        Ok(())
    }

    /// Walks `source` from its first step, taking each pair once, in order.
    /// At the first failure the walk ends and the failure is handed back;
    /// the pairs before it stay collected. Without a failure the result is
    /// everything collected.
    pub fn read_kv(&mut self, source: &Vec<KvEntry>) -> (r: Result<&Labels, KvError>)
        ensures
            match r {
                Ok(labels) => {
                    &&& failure_free(source@)
                    &&& *labels == final(self).collected()
                    &&& final(self).collected().pairs() == put_all(
                        old(self).collected().pairs(),
                        kv_pairs(source@),
                    )
                },
                Err(e) => {
                    &&& !failure_free(source@)
                    &&& e.message@ == source@[first_failure(source@)]->message@
                    &&& final(self).collected().pairs() == put_all(
                        old(self).collected().pairs(),
                        kv_pairs(source@.take(first_failure(source@))),
                    )
                },
            },
    {
        let n = source.len();
        let mut i: usize = 0;
        proof {
            assert(source@.take(0) =~= Seq::<KvEntry>::empty());
        }
        while i < n
            invariant
                i <= n,
                n == source@.len(),
                forall|j: int| 0 <= j < i ==> (#[trigger] source@[j]) is Pair,
                self.collected().pairs() == put_all(
                    old(self).collected().pairs(),
                    kv_pairs(source@.take(i as int)),
                ),
            decreases n - i,
        {
            match &source[i] {
                KvEntry::Pair { key, value } => {
                    proof {
                        let head = source@.take(i as int + 1);
                        assert(head.drop_last() =~= source@.take(i as int));
                        assert(head.last() == source@[i as int]);
                        let q = kv_pairs(head);
                        assert(q.drop_last() =~= kv_pairs(source@.take(i as int)));
                        assert(q.last() == (key@, value@));
                    }
                    self.values.insert(key.clone(), value.clone());
                },
                KvEntry::Failure { message } => {
                    proof {
                        assert(is_first_failure(source@, i as int));
                        lemma_first_failure(source@, i as int);
                    }
                    return Err(KvError { message: message.clone() });
                },
            }
            i += 1;
        }
        proof {
            assert(source@.take(n as int) =~= source@);
        }
        Ok(&self.values)
    }
}

} // verus!
