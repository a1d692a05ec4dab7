//! Insertion-ordered, deduplicated key sequence.
//!
//! The reader's working set must keep keys in first-reference order (so that
//! keys referenced together stay adjacent when a bulk read is split into
//! chunks) while never holding a key twice. `OrderedSet` pairs a vector,
//! which carries the order, with a mirrored hash set, which makes the
//! membership test cheap.

use std::collections::HashSet;
use vstd::prelude::*;

verus! {

/// The sequence that results from appending `k` to `s` if it is absent, and
/// `s` unchanged otherwise.
pub open spec fn push_seq(s: Seq<u64>, k: u64) -> Seq<u64> {
    if s.contains(k) {
        s
    } else {
        s.push(k)
    }
}

/// The sequence that results from merging `b` into `a`: `a` stays in place,
/// and the elements of `b` that are not already in `a` are appended in `b`'s
/// order.
pub open spec fn union_seq(a: Seq<u64>, b: Seq<u64>) -> Seq<u64> {
    a + b.filter(|k: u64| !a.contains(k))
}

/// No element occurs twice.
pub open spec fn distinct_seq(s: Seq<u64>) -> bool {
    forall|i: int, j: int| 0 <= i < j < s.len() ==> s[i] != s[j]
}

/// A set of account keys that remembers insertion order.
pub struct OrderedSet {
    /// The elements, in first-insertion order.
    elements_vec: Vec<u64>,
    /// Mirror of `elements_vec` for O(1) membership tests.
    elements_set: HashSet<u64>,
}

impl View for OrderedSet {
    type V = Seq<u64>;

    closed spec fn view(&self) -> Seq<u64> {
        self.elements_vec@
    }
}

impl OrderedSet {
    /// The vector and the hash set hold exactly the same elements, and the
    /// vector holds no element twice.
    pub closed spec fn wf(&self) -> bool {
        &&& forall|k: u64| self.elements_set@.contains(k) <==> self.elements_vec@.contains(k)
        &&& distinct_seq(self.elements_vec@)
    }

    /// A well-formed set never holds a key twice.
    pub proof fn lemma_distinct(&self)
        requires
            self.wf(),
        ensures
            distinct_seq(self@),
    {
    }

    pub fn new() -> (s: OrderedSet)
        ensures
            s.wf(),
            s@ == Seq::<u64>::empty(),
    {
        OrderedSet { elements_vec: Vec::new(), elements_set: HashSet::new() }
    }

    pub fn len(&self) -> (n: usize)
        ensures
            n == self@.len(),
    {
        self.elements_vec.len()
    }

    pub fn is_empty(&self) -> (r: bool)
        ensures
            r == (self@.len() == 0),
    {
        self.elements_vec.len() == 0
    }

    /// The element at position `i`.
    pub fn get(&self, i: usize) -> (k: u64)
        requires
            i < self@.len(),
        ensures
            k == self@[i as int],
    {
        self.elements_vec[i]
    }

    /// The elements, in insertion order.
    pub fn as_vec(&self) -> (v: &Vec<u64>)
        ensures
            v@ == self@,
    {
        &self.elements_vec
    }

    pub fn contains(&self, element: u64) -> (r: bool)
        requires
            self.wf(),
        ensures
            r == self@.contains(element),
    {
        self.elements_set.contains(&element)
    }

    /// Append `element` at the end, if it is not yet in the set.
    ///
    /// Appending an element that is already present changes nothing: no
    /// duplicate appears and the existing order is kept.
    pub fn push(&mut self, element: u64)
        requires
            old(self).wf(),
        ensures
            final(self).wf(),
            final(self)@ == push_seq(old(self)@, element),
    {
        let is_new = self.elements_set.insert(element);
        if is_new {
            self.elements_vec.push(element);
            proof {
                assert forall|k: u64| self.elements_set@.contains(k) implies self
                    .elements_vec@.contains(k) by {
                    if k == element {
                        assert(self.elements_vec@[self.elements_vec@.len() - 1] == k);
                    } else {
                        let i = choose|i: int|
                            0 <= i < old(self).elements_vec@.len() && old(
                                self,
                            ).elements_vec@[i] == k;
                        assert(self.elements_vec@[i] == k);
                    }
                }
                assert forall|k: u64| self.elements_vec@.contains(k) implies self
                    .elements_set@.contains(k) by {
                    let i = choose|i: int|
                        0 <= i < self.elements_vec@.len() && self.elements_vec@[i] == k;
                    if i < old(self).elements_vec@.len() {
                        assert(old(self).elements_vec@[i] == k);
                    }
                }
            }
        }
    }

    /// Merge `other` into `self`.
    ///
    /// This preserves the order of `self`, and appends the elements of
    /// `other` that were absent at the end, in the order of `other`.
    pub fn union_with(&mut self, other: &OrderedSet)
        requires
            old(self).wf(),
            other.wf(),
        ensures
            final(self).wf(),
            final(self)@ == union_seq(old(self)@, other@),
    {
        proof {
            assert(other@.take(0) =~= Seq::<u64>::empty());
            assert(union_seq(old(self)@, other@.take(0)) =~= old(self)@);
        }
        let n = other.elements_vec.len();
        let mut i: usize = 0;
        while i < n
            invariant
                self.wf(),
                other.wf(),
                n == other@.len(),
                i <= n,
                self@ == union_seq(old(self)@, other@.take(i as int)),
            decreases n - i,
        {
            let element = other.elements_vec[i];
            proof {
                lemma_union_step(old(self)@, other@, i as int);
            }
            self.push(element);
            i = i + 1;
        }
        proof {
            assert(other@.take(n as int) =~= other@);
        }
    }
}

/// One step of the merge: extending the merged range of `b` by one element is
/// the same as pushing that element onto the union built so far.
proof fn lemma_union_step(a: Seq<u64>, b: Seq<u64>, i: int)
    requires
        0 <= i < b.len(),
        distinct_seq(b),
    ensures
        union_seq(a, b.take(i + 1)) == push_seq(union_seq(a, b.take(i)), b[i]),
{
    broadcast use vstd::seq_lib::group_filter_ensures;

    reveal(Seq::filter);
    let pred = |k: u64| !a.contains(k);
    let prefix = b.take(i);
    assert(b.take(i + 1) =~= prefix.push(b[i]));
    assert(prefix.push(b[i]).drop_last() =~= prefix);
    // Unfold the filter of `prefix.push(b[i])` one step.
    assert(prefix.push(b[i]).filter(pred) == if pred(b[i]) {
        prefix.filter(pred).push(b[i])
    } else {
        prefix.filter(pred)
    });
    let u = union_seq(a, prefix);
    if pred(b[i]) {
        // `b[i]` is in neither part of `u`: not in `a` by `pred`, and not in
        // the filtered prefix because `b` has no duplicates.
        assert(!prefix.contains(b[i])) by {
            if prefix.contains(b[i]) {
                let j = choose|j: int| 0 <= j < prefix.len() && prefix[j] == b[i];
                assert(b[j] == b[i]);
            }
        }
        assert(!prefix.filter(pred).contains(b[i])) by {
            if prefix.filter(pred).contains(b[i]) {
                lemma_filter_membership(prefix, pred, b[i]);
            }
        }
        assert(!u.contains(b[i])) by {
            if u.contains(b[i]) {
                let j = choose|j: int| 0 <= j < u.len() && u[j] == b[i];
                if j < a.len() {
                    assert(a[j] == b[i]);
                    assert(a.contains(b[i]));
                } else {
                    assert(prefix.filter(pred)[j - a.len()] == b[i]);
                }
            }
        }
        assert(u.push(b[i]) =~= a + prefix.filter(pred).push(b[i]));
        assert(union_seq(a, b.take(i + 1)) == push_seq(u, b[i]));
    } else {
        // `b[i]` is already in `a`, hence in `u`; both sides leave `u` as is.
        assert(u.contains(b[i])) by {
            let j = choose|j: int| 0 <= j < a.len() && a[j] == b[i];
            assert(u[j] == b[i]);
        }
    }
}

/// An element kept by a filter was in the sequence that was filtered.
proof fn lemma_filter_membership(s: Seq<u64>, pred: spec_fn(u64) -> bool, k: u64)
    requires
        s.filter(pred).contains(k),
    ensures
        s.contains(k),
    decreases s.len(),
{
    reveal(Seq::filter);
    if s.len() > 0 {
        if pred(s.last()) && k == s.last() {
            assert(s[s.len() - 1] == k);
        } else {
            assert(s.drop_last().filter(pred).contains(k));
            lemma_filter_membership(s.drop_last(), pred, k);
            let j = choose|j: int|
                0 <= j < s.drop_last().len() && s.drop_last()[j] == k;
            assert(s[j] == k);
        }
    }
}

/// Pushing a key twice is the same as pushing it once: the second push finds
/// the key present and changes nothing.
pub proof fn lemma_push_idempotent(s: Seq<u64>, k: u64)
    ensures
        push_seq(push_seq(s, k), k) == push_seq(s, k),
{
    if !s.contains(k) {
        assert(s.push(k)[s.len() as int] == k);
        assert(push_seq(s, k).contains(k));
    }
}

/// Merging loses nothing: every key of either side is in the union. In
/// particular, a key that was referenced during a failed attempt is in the
/// working set that the retry uses.
pub proof fn lemma_union_keeps_all(a: Seq<u64>, b: Seq<u64>, k: u64)
    ensures
        a.contains(k) ==> union_seq(a, b).contains(k),
        b.contains(k) ==> union_seq(a, b).contains(k),
{
    broadcast use vstd::seq_lib::group_filter_ensures;

    let pred = |x: u64| !a.contains(x);
    if a.contains(k) {
        let j = choose|j: int| 0 <= j < a.len() && a[j] == k;
        assert(union_seq(a, b)[j] == k);
    } else if b.contains(k) {
        let j = choose|j: int| 0 <= j < b.len() && b[j] == k;
        assert(b.filter(pred).contains(b[j]));
        let m = choose|m: int| 0 <= m < b.filter(pred).len() && b.filter(pred)[m] == k;
        assert(union_seq(a, b)[a.len() + m] == k);
    }
}

} // verus!
