//! An order-preserving keyed container.
//!
//! The design tree needs maps whose keys are unique and whose insertion
//! order stays auditable.  `Dict` keeps its entries in declaration order in
//! a vector; inserting an existing key overwrites the value in place (last
//! declaration wins), so keys stay unique by construction.

use vstd::prelude::*;

verus! {

/// Index of the first entry of `s` whose key is `k`, or `-1` when no entry
/// has that key.
pub open spec fn assoc_find<T>(s: Seq<(Seq<char>, T)>, k: Seq<char>) -> int
    decreases s.len(),
{
    if s.len() == 0 {
        -1
    } else if s[0].0 == k {
        0
    } else {
        let r = assoc_find(s.drop_first(), k);
        if r == -1 {
            -1
        } else {
            r + 1
        }
    }
}

pub open spec fn assoc_has_key<T>(s: Seq<(Seq<char>, T)>, k: Seq<char>) -> bool {
    assoc_find(s, k) != -1
}

pub open spec fn assoc_get<T>(s: Seq<(Seq<char>, T)>, k: Seq<char>) -> T {
    s[assoc_find(s, k)].1
}

/// Value of `s` after binding `k` to `v`: overwrite in place when the key is
/// already bound, append otherwise.
pub open spec fn assoc_insert<T>(s: Seq<(Seq<char>, T)>, k: Seq<char>, v: T) -> Seq<
    (Seq<char>, T),
> {
    if assoc_find(s, k) == -1 {
        s.push((k, v))
    } else {
        s.update(assoc_find(s, k), (k, v))
    }
}

/// All keys distinct.
pub open spec fn assoc_wf<T>(s: Seq<(Seq<char>, T)>) -> bool {
    forall|i: int, j: int| 0 <= i < j < s.len() ==> s[i].0 != s[j].0
}

pub proof fn lemma_assoc_find_props<T>(s: Seq<(Seq<char>, T)>, k: Seq<char>)
    ensures
        assoc_find(s, k) == -1 ==> forall|i: int| 0 <= i < s.len() ==> s[i].0 != k,
        assoc_find(s, k) != -1 ==> 0 <= assoc_find(s, k) < s.len() && s[assoc_find(s, k)].0 == k
            && forall|i: int| 0 <= i < assoc_find(s, k) ==> s[i].0 != k,
    decreases s.len(),
{
    if s.len() > 0 && s[0].0 != k {
        lemma_assoc_find_props(s.drop_first(), k);
        assert forall|i: int| 0 <= i < s.len() && assoc_find(s, k) == -1 implies s[i].0
            != k by {
            if i > 0 {
                assert(s.drop_first()[i - 1] == s[i]);
            }
        }
        if assoc_find(s, k) != -1 {
            assert(s.drop_first()[assoc_find(s, k) - 1] == s[assoc_find(s, k)]);
            assert forall|i: int| 0 <= i < assoc_find(s, k) implies s[i].0 != k by {
                if i > 0 {
                    assert(s.drop_first()[i - 1] == s[i]);
                }
            }
        }
    }
}

/// A scan that saw no match in `s[..i]` and a match at `i` has found the
/// first match.
pub proof fn lemma_assoc_find_at<T>(s: Seq<(Seq<char>, T)>, k: Seq<char>, i: int)
    requires
        0 <= i < s.len(),
        s[i].0 == k,
        forall|m: int| 0 <= m < i ==> s[m].0 != k,
    ensures
        assoc_find(s, k) == i,
    decreases i,
{
    if i > 0 {
        assert forall|m: int| 0 <= m < i - 1 implies s.drop_first()[m].0 != k by {
            assert(s.drop_first()[m] == s[m + 1]);
        }
        assert(s.drop_first()[i - 1] == s[i]);
        lemma_assoc_find_at(s.drop_first(), k, i - 1);
    }
}

/// Inserting preserves key uniqueness.
pub proof fn lemma_assoc_insert_wf<T>(s: Seq<(Seq<char>, T)>, k: Seq<char>, v: T)
    requires
        assoc_wf(s),
    ensures
        assoc_wf(assoc_insert(s, k, v)),
{
    lemma_assoc_find_props(s, k);
}

/// An ordered map from names to values, keyed uniquely, preserving the
/// order in which keys were first inserted.
#[derive(Debug, Clone, PartialEq)]
pub struct Dict<V> {
    entries: Vec<(String, V)>,
}

impl<V: DeepView> View for Dict<V> {
    type V = Seq<(Seq<char>, <V as DeepView>::V)>;

    closed spec fn view(&self) -> Seq<(Seq<char>, <V as DeepView>::V)> {
        self.entries@.map_values(|p: (String, V)| (p.0@, p.1.deep_view()))
    }
}

impl<V: DeepView> Dict<V> {
    pub fn new() -> (d: Dict<V>)
        ensures
            d@ =~= Seq::<(Seq<char>, <V as DeepView>::V)>::empty(),
    {
        Dict { entries: Vec::new() }
    }

    pub fn len(&self) -> (n: usize)
        ensures
            n == self@.len(),
    {
        self.entries.len()
    }

    /// The key of the `i`th entry in insertion order.
    pub fn key_at(&self, i: usize) -> (r: &String)
        requires
            i < self@.len(),
        ensures
            r@ == self@[i as int].0,
    {
        &self.entries[i].0
    }

    /// The value of the `i`th entry in insertion order.
    pub fn value_at(&self, i: usize) -> (r: &V)
        requires
            i < self@.len(),
        ensures
            r.deep_view() == self@[i as int].1,
    {
        &self.entries[i].1
    }

    /// Bind `key` to `value`, overwriting in place when the key is already
    /// bound.
    pub fn insert(&mut self, key: String, value: V)
        ensures
            final(self)@ == assoc_insert(old(self)@, key@, value.deep_view()),
            assoc_wf(old(self)@) ==> assoc_wf(final(self)@),
    {
        proof {
            if assoc_wf(old(self)@) {
                lemma_assoc_insert_wf(old(self)@, key@, value.deep_view());
            }
        }
        let mut i: usize = 0;
        while i < self.entries.len()
            invariant
                i <= self.entries.len(),
                self == old(self),
                forall|m: int| 0 <= m < i ==> self@[m].0 != key@,
            decreases self.entries.len() - i,
        {
            if self.entries[i].0 == key {
                proof {
                    lemma_assoc_find_at(self@, key@, i as int);
                }
                self.entries.remove(i);
                self.entries.insert(i, (key, value));
                proof {
                    assert(self@ =~= assoc_insert(old(self)@, key@, value.deep_view()));
                }
                return ;
            }
            i += 1;
        }
        proof {
            lemma_assoc_find_none(old(self)@, key@);
        }
        self.entries.push((key, value));
        proof {
            assert(self@ =~= assoc_insert(old(self)@, key@, value.deep_view()));
        }
    }

    /// Look a value up by its key.
    pub fn get<'a>(&'a self, key: &str) -> (r: Option<&'a V>)
        ensures
            match r {
                Some(v) => assoc_has_key(self@, key@) && v.deep_view() == assoc_get(self@, key@),
                None => !assoc_has_key(self@, key@),
            },
    {
        let k: String = key.to_owned();
        let mut i: usize = 0;
        while i < self.entries.len()
            invariant
                i <= self.entries.len(),
                k@ == key@,
                forall|m: int| 0 <= m < i ==> self@[m].0 != key@,
            decreases self.entries.len() - i,
        {
            if self.entries[i].0 == k {
                proof {
                    lemma_assoc_find_at(self@, key@, i as int);
                }
                return Some(&self.entries[i].1);
            }
            i += 1;
        }
        proof {
            lemma_assoc_find_none(self@, key@);
        }
        None
    }

    pub fn contains_key(&self, key: &str) -> (r: bool)
        ensures
            r == assoc_has_key(self@, key@),
    {
        match self.get(key) {
            Some(_) => true,
            None => false,
        }
    }
}

/// When no entry of `s` has key `k`, the scan result is `-1`.
pub proof fn lemma_assoc_find_none<T>(s: Seq<(Seq<char>, T)>, k: Seq<char>)
    requires
        forall|m: int| 0 <= m < s.len() ==> s[m].0 != k,
    ensures
        assoc_find(s, k) == -1,
    decreases s.len(),
{
    if s.len() > 0 {
        assert forall|m: int| 0 <= m < s.drop_first().len() implies s.drop_first()[m].0 != k by {
            assert(s.drop_first()[m] == s[m + 1]);
        }
        lemma_assoc_find_none(s.drop_first(), k);
    }
}

/// Inserting a value satisfying `p` into a map whose values all satisfy
/// `p` yields a map whose values all satisfy `p`.
pub proof fn lemma_assoc_insert_preserves<T>(
    s: Seq<(Seq<char>, T)>,
    k: Seq<char>,
    v: T,
    p: spec_fn(T) -> bool,
)
    requires
        forall|i: int| 0 <= i < s.len() ==> p(#[trigger] s[i].1),
        p(v),
    ensures
        forall|i: int|
            0 <= i < assoc_insert(s, k, v).len() ==> p(#[trigger] assoc_insert(s, k, v)[i].1),
{
    lemma_assoc_find_props(s, k);
}

} // verus!
