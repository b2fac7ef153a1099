//! Label sets: string keys with string values, each key held once.
//!
//! A label set is modelled twice: as the sequence of its pairs, in the order
//! in which the keys first arrived (the order in which they are written out),
//! and as the map from key to value that this sequence stands for.
use crate::text::str_eq;
use vstd::prelude::*;
use vstd::string::*;

verus! {

/// The mathematical model of a list of labels: key and value, as characters.
pub type Pairs = Seq<(Seq<char>, Seq<char>)>;

/// Some pair of `p` has the key `k`.
pub open spec fn has_key(p: Pairs, k: Seq<char>) -> bool {
    exists|i: int| 0 <= i < p.len() && (#[trigger] p[i]).0 == k
}

/// A position at which `p` holds the key `k`, if there is one.
pub open spec fn key_index(p: Pairs, k: Seq<char>) -> int {
    choose|i: int| 0 <= i < p.len() && (#[trigger] p[i]).0 == k
}

/// No key occurs twice in `p`.
pub open spec fn keys_distinct(p: Pairs) -> bool {
    forall|i: int, j: int| 0 <= i < j < p.len() ==> (#[trigger] p[i]).0 != (#[trigger] p[j]).0
}

/// `p` after `k` was set to `v`: an existing key keeps its place and takes
/// the new value, a new key goes to the end.
pub open spec fn put(p: Pairs, k: Seq<char>, v: Seq<char>) -> Pairs {
    if has_key(p, k) {
        p.update(key_index(p, k), (k, v))
    } else {
        p.push((k, v))
    }
}

/// `p` after each pair of `q` was set in turn, the first pair of `q` first.
pub open spec fn put_all(p: Pairs, q: Pairs) -> Pairs
    decreases q.len(),
{
    if q.len() == 0 {
        p
    } else {
        put(put_all(p, q.drop_last()), q.last().0, q.last().1)
    }
}

/// The map that a list of pairs with distinct keys stands for.
pub open spec fn pairs_map(p: Pairs) -> Map<Seq<char>, Seq<char>> {
    Map::new(|k: Seq<char>| has_key(p, k), |k: Seq<char>| p[key_index(p, k)].1)
}

/// The map that a list of pairs stands for when a later pair overrides an
/// earlier one with the same key.
pub open spec fn last_wins(q: Pairs) -> Map<Seq<char>, Seq<char>> {
    pairs_map(put_all(Seq::empty(), q))
}

/// In a list with distinct keys each key leads to the value beside it.
pub proof fn lemma_pairs_map_at(p: Pairs, i: int)
    requires
        keys_distinct(p),
        0 <= i < p.len(),
    ensures
        has_key(p, p[i].0),
        key_index(p, p[i].0) == i,
        pairs_map(p).dom().contains(p[i].0),
        pairs_map(p)[p[i].0] == p[i].1,
{
    let k = p[i].0;
    assert(has_key(p, k));
    let j = key_index(p, k);
    assert(0 <= j < p.len() && p[j].0 == k);
    if j < i {
        assert(p[j].0 != p[i].0);
    } else if i < j {
        assert(p[i].0 != p[j].0);
    }
}

/// Setting a key in the list is inserting it into the map, and keeps the
/// keys distinct.
pub proof fn lemma_put(p: Pairs, k: Seq<char>, v: Seq<char>)
    requires
        keys_distinct(p),
    ensures
        keys_distinct(put(p, k, v)),
        pairs_map(put(p, k, v)) == pairs_map(p).insert(k, v),
        has_key(p, k) ==> put(p, k, v).len() == p.len(),
        !has_key(p, k) ==> put(p, k, v).len() == p.len() + 1,
{
    let q = put(p, k, v);
    let at: int = if has_key(p, k) { key_index(p, k) } else { p.len() as int };
    assert(0 <= at < q.len());
    assert(q[at] == (k, v));
    assert forall|i: int| 0 <= i < q.len() && i != at implies #[trigger] q[i] == p[i] && p[i].0
        != k by {
        if has_key(p, k) {
            if i < at {
                assert(p[i].0 != p[at].0);
            } else {
                assert(p[at].0 != p[i].0);
            }
        }
    }
    assert(keys_distinct(q)) by {
        assert forall|i: int, j: int| 0 <= i < j < q.len() implies (#[trigger] q[i]).0 != (
        #[trigger] q[j]).0 by {
            if i != at && j != at {
                assert(p[i].0 != p[j].0);
            }
        }
    }
    lemma_pairs_map_at(q, at);
    assert forall|x: Seq<char>| #[trigger] has_key(q, x) <==> (x == k || has_key(p, x)) by {
        if has_key(q, x) {
            let i = key_index(q, x);
            if i != at {
                assert(p[i].0 == x);
            }
        }
        if has_key(p, x) && x != k {
            let i = key_index(p, x);
            assert(i != at);
            assert(q[i].0 == x);
        }
    }
    assert forall|x: Seq<char>| has_key(p, x) && x != k implies #[trigger] pairs_map(q)[x]
        == pairs_map(p)[x] by {
        let i = key_index(p, x);
        assert(q[i] == p[i]);
        lemma_pairs_map_at(q, i);
    }
    assert(pairs_map(q) =~= pairs_map(p).insert(k, v));
}

/// Setting a whole list is overlaying its map: where both have a key, the
/// list that was set wins.
pub proof fn lemma_put_all(p: Pairs, q: Pairs)
    requires
        keys_distinct(p),
    ensures
        keys_distinct(put_all(p, q)),
        pairs_map(put_all(p, q)) == pairs_map(p).union_prefer_right(last_wins(q)),
        put_all(p, q).len() <= p.len() + q.len(),
    decreases q.len(),
{
    let none: Pairs = Seq::empty();
    if q.len() == 0 {
        assert(pairs_map(none) =~= Map::<Seq<char>, Seq<char>>::empty());
        assert(pairs_map(p) =~= pairs_map(p).union_prefer_right(last_wins(q)));
    } else {
        let head = q.drop_last();
        let k = q.last().0;
        let v = q.last().1;
        lemma_put_all(p, head);
        lemma_put_all(none, head);
        lemma_put(put_all(p, head), k, v);
        lemma_put(put_all(none, head), k, v);
        assert(pairs_map(put_all(p, q)) =~= pairs_map(p).union_prefer_right(last_wins(q)));
    }
}

/// A list with distinct keys, set into the empty list, gives itself back.
pub proof fn lemma_put_all_distinct(q: Pairs)
    requires
        keys_distinct(q),
    ensures
        put_all(Seq::empty(), q) == q,
        last_wins(q) == pairs_map(q),
    decreases q.len(),
{
    let none: Pairs = Seq::empty();
    if q.len() == 0 {
        assert(put_all(none, q) =~= q);
    } else {
        let head = q.drop_last();
        assert(keys_distinct(head)) by {
            assert forall|i: int, j: int| 0 <= i < j < head.len() implies (#[trigger] head[i]).0
                != (#[trigger] head[j]).0 by {
                assert(q[i].0 != q[j].0);
            }
        }
        lemma_put_all_distinct(head);
        let k = q.last().0;
        if has_key(head, k) {
            let i = key_index(head, k);
            assert(q[i].0 != q[q.len() - 1].0);
        }
        assert(put(head, k, q.last().1) =~= q);
    }
}

/// A set of labels. Each key is held once; setting a key that is there
/// replaces its value.
#[derive(Debug)]
pub struct Labels {
    entries: Vec<(String, String)>,
}

impl View for Labels {
    type V = Map<Seq<char>, Seq<char>>;

    /// The map that the pairs of the set stand for.
    open spec fn view(&self) -> Map<Seq<char>, Seq<char>> {
        pairs_map(self.pairs())
    }
}

impl Labels {
    #[verifier::type_invariant]
    spec fn distinct(self) -> bool {
        keys_distinct(self.pairs())
    }

    /// The pairs in the order in which they are written out.
    pub closed spec fn pairs(self) -> Pairs {
        Seq::new(self.entries.len() as nat, |i: int| (self.entries[i].0@, self.entries[i].1@))
    }

    /// An empty set of labels.
    pub fn new() -> (r: Labels)
        ensures
            r.pairs() == Seq::<(Seq<char>, Seq<char>)>::empty(),
            r@ == Map::<Seq<char>, Seq<char>>::empty(),
    {
        let r = Labels { entries: Vec::new() };
        assert(r.pairs() =~= Seq::<(Seq<char>, Seq<char>)>::empty());
        assert(r@ =~= Map::<Seq<char>, Seq<char>>::empty());
        r
    }

    /// An empty set of labels with room for `capacity` pairs.
    pub fn with_capacity(capacity: usize) -> (r: Labels)
        ensures
            r.pairs() == Seq::<(Seq<char>, Seq<char>)>::empty(),
            r@ == Map::<Seq<char>, Seq<char>>::empty(),
    {
        let r = Labels { entries: Vec::with_capacity(capacity) };
        assert(r.pairs() =~= Seq::<(Seq<char>, Seq<char>)>::empty());
        assert(r@ =~= Map::<Seq<char>, Seq<char>>::empty());
        r
    }

    /// The number of labels.
    pub fn len(&self) -> (n: usize)
        ensures
            n == self.pairs().len(),
            n == self@.dom().len(),
    {
        proof {
            use_type_invariant(self);
            lemma_distinct_len(self.pairs());
        }
        self.entries.len()
    }

    /// The key of the pair at position `i`.
    pub fn key_at(&self, i: usize) -> (k: &str)
        requires
            i < self.pairs().len(),
        ensures
            k@ == self.pairs()[i as int].0,
    {
        self.entries[i].0.as_str()
    }

    /// The value of the pair at position `i`.
    pub fn value_at(&self, i: usize) -> (v: &str)
        requires
            i < self.pairs().len(),
        ensures
            v@ == self.pairs()[i as int].1,
    {
        self.entries[i].1.as_str()
    }

    /// The position of `key`, if the set holds it.
    pub fn position(&self, key: &str) -> (r: Option<usize>)
        ensures
            match r {
                Some(i) => has_key(self.pairs(), key@) && i == key_index(self.pairs(), key@),
                None => !has_key(self.pairs(), key@),
            },
    {
        let mut i: usize = 0;
        while i < self.entries.len()
            invariant
                i <= self.entries.len(),
                forall|j: int| 0 <= j < i ==> (#[trigger] self.pairs()[j]).0 != key@,
            decreases self.entries.len() - i,
        {
            if str_eq(self.entries[i].0.as_str(), key) {
                proof {
                    use_type_invariant(self);
                    lemma_pairs_map_at(self.pairs(), i as int);
                }
                return Some(i);
            }
            i += 1;
        }
        None
    }

    /// The value stored under `key`, if any.
    pub fn get(&self, key: &str) -> (r: Option<&str>)
        ensures
            match r {
                Some(v) => self@.dom().contains(key@) && self@[key@] == v@,
                None => !self@.dom().contains(key@),
            },
    {
        match self.position(key) {
            Some(i) => Some(self.entries[i].1.as_str()),
            None => None,
        }
    }

    /// Sets `key` to `value`, replacing the value of a key that is there.
    pub fn insert(&mut self, key: String, value: String)
        ensures
            final(self).pairs() == put(old(self).pairs(), key@, value@),
            final(self)@ == old(self)@.insert(key@, value@),
    {
        proof {
            use_type_invariant(&*self);
            lemma_put(self.pairs(), key@, value@);
        }
        let found = self.position(key.as_str());
        let ghost before = self.pairs();
        let ghost k = key@;
        let ghost v = value@;
        let mut entries: Vec<(String, String)> = Vec::new();
        std::mem::swap(&mut entries, &mut self.entries);
        match found {
            Some(i) => {
                entries.set(i, (key, value));
            },
            None => {
                entries.push((key, value));
            },
        }
        proof {
            let after = Seq::new(entries.len() as nat, |i: int| (entries[i].0@, entries[i].1@));
            assert(after =~= put(before, k, v));
        }
        self.entries = entries;
    }

    /// Sets every pair of `other` in this set; on a key that both hold, the
    /// value of `other` replaces the one that was here.
    pub fn extend(&mut self, other: &Labels)
        ensures
            final(self).pairs() == put_all(old(self).pairs(), other.pairs()),
            final(self)@ == old(self)@.union_prefer_right(other@),
    {
        proof {
            use_type_invariant(&*self);
            use_type_invariant(other);
        }
        let n = other.entries.len();
        let mut i: usize = 0;
        while i < n
            invariant
                i <= n,
                n == other.pairs().len(),
                self.pairs() == put_all(old(self).pairs(), other.pairs().take(i as int)),
            decreases n - i,
        {
            let key = other.entries[i].0.clone();
            let value = other.entries[i].1.clone();
            proof {
                let head = other.pairs().take(i as int + 1);
                assert(head.drop_last() =~= other.pairs().take(i as int));
                assert(head.last() == other.pairs()[i as int]);
            }
            self.insert(key, value);
            i += 1;
        }
        proof {
            assert(other.pairs().take(n as int) =~= other.pairs());
            lemma_put_all(old(self).pairs(), other.pairs());
            lemma_put_all_distinct(other.pairs());
        }
    }
}

/// A list with distinct keys has as many pairs as its map has keys.
pub proof fn lemma_distinct_len(p: Pairs)
    requires
        keys_distinct(p),
    ensures
        pairs_map(p).dom().finite(),
        pairs_map(p).dom().len() == p.len(),
    decreases p.len(),
{
    if p.len() == 0 {
        assert(pairs_map(p).dom() =~= Set::<Seq<char>>::empty());
    } else {
        let head = p.drop_last();
        assert(keys_distinct(head)) by {
            assert forall|i: int, j: int| 0 <= i < j < head.len() implies (#[trigger] head[i]).0
                != (#[trigger] head[j]).0 by {
                assert(p[i].0 != p[j].0);
            }
        }
        lemma_distinct_len(head);
        let k = p.last().0;
        if has_key(head, k) {
            let i = key_index(head, k);
            assert(p[i].0 != p[p.len() - 1].0);
        }
        assert(put(head, k, p.last().1) =~= p);
        lemma_put(head, k, p.last().1);
        assert(pairs_map(p).dom() =~= pairs_map(head).dom().insert(k));
    }
}

} // verus!
