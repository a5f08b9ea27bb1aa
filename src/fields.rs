//! `FieldMap`: string keys to string values, keys as typed (no case folding),
//! each key at most once, kept in the order in which keys first arrived.

use vstd::prelude::*;
use crate::text::same_text;

verus! {

/// Whether no key occurs twice in `es`.
pub open spec fn keys_unique(es: Seq<(Seq<char>, Seq<char>)>) -> bool {
    forall|i: int, j: int| 0 <= i < j < es.len() ==> es[i].0 != es[j].0
}

/// Whether `k` is a key of `es`.
pub open spec fn has_key(es: Seq<(Seq<char>, Seq<char>)>, k: Seq<char>) -> bool {
    exists|i: int| 0 <= i < es.len() && es[i].0 == k
}

/// The value under `k`.
pub open spec fn lookup(es: Seq<(Seq<char>, Seq<char>)>, k: Seq<char>) -> Option<Seq<char>> {
    if has_key(es, k) {
        Some(es[choose|i: int| 0 <= i < es.len() && es[i].0 == k].1)
    } else {
        None
    }
}

/// `es` with `k` set to `v`: a present key keeps its place and takes the new
/// value; a new key goes last.
pub open spec fn with_field(
    es: Seq<(Seq<char>, Seq<char>)>,
    k: Seq<char>,
    v: Seq<char>,
) -> Seq<(Seq<char>, Seq<char>)> {
    if has_key(es, k) {
        es.update(choose|i: int| 0 <= i < es.len() && es[i].0 == k, (k, v))
    } else {
        es.push((k, v))
    }
}

pub proof fn lemma_with_field_unique(es: Seq<(Seq<char>, Seq<char>)>, k: Seq<char>, v: Seq<char>)
    requires
        keys_unique(es),
    ensures
        keys_unique(with_field(es, k, v)),
        lookup(with_field(es, k, v), k) == Some(v),
{
    let r = with_field(es, k, v);
    if has_key(es, k) {
        let i = choose|i: int| 0 <= i < es.len() && es[i].0 == k;
        assert(r[i].0 == k);
        assert forall|a: int, b: int| 0 <= a < b < r.len() implies r[a].0 != r[b].0 by {
            if a != i && b != i {
                assert(r[a] == es[a] && r[b] == es[b]);
            }
        }
        let j = choose|j: int| 0 <= j < r.len() && r[j].0 == k;
        assert(j == i);
    } else {
        assert(r[es.len() as int].0 == k);
        let j = choose|j: int| 0 <= j < r.len() && r[j].0 == k;
        if j < es.len() {
            assert(es[j].0 == k);
        }
    }
}

/// The pairs of `es` as character sequences.
pub open spec fn pairs_view(es: Seq<(String, String)>) -> Seq<(Seq<char>, Seq<char>)> {
    es.map_values(|e: (String, String)| (e.0@, e.1@))
}

pub struct FieldMap {
    entries: Vec<(String, String)>,
}

impl View for FieldMap {
    type V = Seq<(Seq<char>, Seq<char>)>;

    closed spec fn view(&self) -> Seq<(Seq<char>, Seq<char>)> {
        pairs_view(self.entries@)
    }
}

impl FieldMap {
    /// Each key occurs once.
    pub open spec fn wf(&self) -> bool {
        keys_unique(self@)
    }

    pub fn new() -> (r: FieldMap)
        ensures
            r@ == Seq::<(Seq<char>, Seq<char>)>::empty(),
            r.wf(),
    {
        FieldMap { entries: Vec::new() }
    }

    pub fn len(&self) -> (r: usize)
        ensures
            r == self@.len(),
    {
        self.entries.len()
    }

    pub fn is_empty(&self) -> (r: bool)
        ensures
            r == (self@.len() == 0),
    {
        self.entries.len() == 0
    }

    /// The pairs, in order.
    pub fn pairs(&self) -> (r: &Vec<(String, String)>)
        ensures
            pairs_view(r@) == self@,
    {
        &self.entries
    }

    /// Sets `key` to `value`; a present key keeps its place.
    pub fn insert(&mut self, key: String, value: String)
        requires
            old(self).wf(),
        ensures
            final(self)@ == with_field(old(self)@, key@, value@),
            final(self).wf(),
    {
        proof {
            lemma_with_field_unique(self@, key@, value@);
        }
        let mut i: usize = 0;
        while i < self.entries.len()
            invariant
                i <= self.entries@.len(),
                self@ == old(self)@,
                keys_unique(self@),
                forall|j: int| 0 <= j < i ==> self@[j].0 != key@,
            decreases self.entries@.len() - i,
        {
            if self.entries[i].0 == key {
                proof {
                    assert(self@[i as int].0 == key@);
                    let k = choose|k: int| 0 <= k < self@.len() && self@[k].0 == key@;
                    if k != i {
                        assert(self@[k].0 == self@[i as int].0);
                    }
                }
                self.entries.set(i, (key, value));
                assert(self@ =~= with_field(old(self)@, key@, value@));
                return;
            }
            i += 1;
        }
        self.entries.push((key, value));
        assert(self@ =~= with_field(old(self)@, key@, value@));
    }

    /// The value under `key`, if any.
    pub fn get(&self, key: &str) -> (r: Option<&String>)
        requires
            self.wf(),
        ensures
            match lookup(self@, key@) {
                Some(v) => r matches Some(x) && x@ == v,
                None => r is None,
            },
    {
        let mut i: usize = 0;
        while i < self.entries.len()
            invariant
                i <= self.entries@.len(),
                keys_unique(self@),
                forall|j: int| 0 <= j < i ==> self@[j].0 != key@,
            decreases self.entries@.len() - i,
        {
            if same_text(self.entries[i].0.as_str(), key) {
                proof {
                    assert(self@[i as int].0 == key@);
                    let k = choose|k: int| 0 <= k < self@.len() && self@[k].0 == key@;
                    if k != i {
                        assert(self@[k].0 == self@[i as int].0);
                    }
                }
                return Some(&self.entries[i].1);
            }
            i += 1;
        }
        None
    }

    /// A copy with the same pairs.
    pub fn duplicate(&self) -> (r: FieldMap)
        ensures
            r@ == self@,
    {
        let mut out: Vec<(String, String)> = Vec::new();
        let mut i: usize = 0;
        while i < self.entries.len()
            invariant
                i <= self.entries@.len(),
                out@.len() == i,
                self@.len() == self.entries@.len(),
                pairs_view(out@) == self@.take(i as int),
            decreases self.entries@.len() - i,
        {
            let k = self.entries[i].0.clone();
            let v = self.entries[i].1.clone();
            let ghost prev = out@;
            out.push((k, v));
            assert(out@ == prev.push((k, v)));
            assert(self@[i as int] == (k@, v@));
            assert forall|j: int| 0 <= j <= i implies pairs_view(out@)[j] == self@[j] by {
                if j < i {
                    assert(out@[j] == prev[j]);
                    assert(pairs_view(prev)[j] == self@.take(i as int)[j]);
                }
            }
            assert(pairs_view(out@) =~= self@.take(i + 1));
            i += 1;
        }
        assert(self@.take(self@.len() as int) =~= self@);
        FieldMap { entries: out }
    }
}

} // verus!
