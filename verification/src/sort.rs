//! Stable ordering of indexed records by their batch index.
use vstd::prelude::*;

verus! {

/// A record that carries the zero-based batch index of the task it
/// belongs to.
pub trait IndexedRecord: Sized {
    /// The batch index of this record.
    spec fn key(&self) -> usize;

    /// Returns the batch index of this record.
    fn record_index(&self) -> (r: usize)
        ensures
            r == self.key(),
    ;
}

/// The position at which a record with index `key` goes in `s` to keep a
/// stable order: just after every leading record whose index is at most
/// `key`.
pub open spec fn insert_position<T: IndexedRecord>(s: Seq<T>, key: usize) -> nat
    decreases s.len(),
{
    if s.len() == 0 {
        0
    } else if s[0].key() > key {
        0
    } else {
        1 + insert_position(s.drop_first(), key)
    }
}

/// `s` with `x` inserted at its stable position.
pub open spec fn insert_by_index<T: IndexedRecord>(s: Seq<T>, x: T) -> Seq<T> {
    s.insert(insert_position(s, x.key()) as int, x)
}

/// The stable sort of `s` by batch index: records with a smaller index come
/// first, and records with equal indexes keep their original order.
pub open spec fn sorted_by_index<T: IndexedRecord>(s: Seq<T>) -> Seq<T>
    decreases s.len(),
{
    if s.len() == 0 {
        s
    } else {
        insert_by_index(sorted_by_index(s.drop_last()), s.last())
    }
}

/// Whether the records of `s` appear in nondecreasing index order.
pub open spec fn is_index_ordered<T: IndexedRecord>(s: Seq<T>) -> bool {
    forall|i: int, j: int| 0 <= i < j < s.len() ==> s[i].key() <= s[j].key()
}

/// No two records of `s` carry the same batch index.
pub open spec fn has_distinct_keys<T: IndexedRecord>(s: Seq<T>) -> bool {
    forall|i: int, j: int| 0 <= i < j < s.len() ==> s[i].key() != s[j].key()
}

/// Some record of `s` carries the batch index `key`.
pub open spec fn has_key<T: IndexedRecord>(s: Seq<T>, key: usize) -> bool {
    exists|j: int| 0 <= j < s.len() && s[j].key() == key
}

/// The stable position is characterised by the records around it.
proof fn lemma_insert_position_at<T: IndexedRecord>(s: Seq<T>, key: usize, p: int)
    requires
        0 <= p <= s.len(),
        forall|j: int| 0 <= j < p ==> s[j].key() <= key,
        p < s.len() ==> s[p].key() > key,
    ensures
        insert_position(s, key) == p,
    decreases p,
{
    if p > 0 {
        assert forall|j: int| 0 <= j < p - 1 implies s.drop_first()[j].key() <= key by {
            assert(s.drop_first()[j] == s[j + 1]);
        }
        if p - 1 < s.drop_first().len() {
            assert(s.drop_first()[p - 1] == s[p]);
        }
        lemma_insert_position_at(s.drop_first(), key, p - 1);
    }
}

/// The stable position lies within `s`, every record before it has an index
/// of at most `key`, and in an ordered `s` every record from it on has a
/// larger index.
pub(crate) proof fn lemma_insert_position_bounds<T: IndexedRecord>(s: Seq<T>, key: usize)
    ensures
        insert_position(s, key) <= s.len(),
        forall|j: int| 0 <= j < insert_position(s, key) ==> s[j].key() <= key,
        is_index_ordered(s) ==> forall|j: int|
            insert_position(s, key) <= j < s.len() ==> s[j].key() > key,
    decreases s.len(),
{
    if s.len() > 0 && s[0].key() <= key {
        let t = s.drop_first();
        lemma_insert_position_bounds(t, key);
        assert forall|j: int| 0 <= j < insert_position(s, key) implies s[j].key() <= key by {
            if j > 0 {
                assert(s[j] == t[j - 1]);
            }
        }
        if is_index_ordered(s) {
            assert(is_index_ordered(t)) by {
                assert forall|i: int, j: int| 0 <= i < j < t.len() implies t[i].key() <= t[j].key() by {
                    assert(t[i] == s[i + 1]);
                    assert(t[j] == s[j + 1]);
                }
            }
            assert forall|j: int| insert_position(s, key) <= j < s.len() implies s[j].key() > key by {
                assert(s[j] == t[j - 1]);
            }
        }
    }
}

/// Inserting at the stable position keeps an ordered sequence ordered and
/// adds exactly the inserted record.
proof fn lemma_insert_by_index<T: IndexedRecord>(s: Seq<T>, x: T)
    requires
        is_index_ordered(s),
    ensures
        is_index_ordered(insert_by_index(s, x)),
        insert_by_index(s, x).len() == s.len() + 1,
        insert_by_index(s, x).to_multiset() == s.to_multiset().insert(x),
{
    let p = insert_position(s, x.key()) as int;
    lemma_insert_position_bounds(s, x.key());
    let r = insert_by_index(s, x);
    s.insert_ensures(p, x);
    vstd::seq_lib::to_multiset_insert(s, p, x);
    assert forall|i: int, j: int| 0 <= i < j < r.len() implies r[i].key() <= r[j].key() by {
        if j < p {
        } else if j == p {
        } else if i < p {
        } else if i == p {
            assert(r[j] == s[j - 1]);
        } else {
            assert(r[i] == s[i - 1]);
            assert(r[j] == s[j - 1]);
        }
    }
}

/// The stable sort yields an ordered permutation of its input.
pub proof fn lemma_sorted_by_index<T: IndexedRecord>(s: Seq<T>)
    ensures
        is_index_ordered(sorted_by_index(s)),
        sorted_by_index(s).len() == s.len(),
        sorted_by_index(s).to_multiset() == s.to_multiset(),
    decreases s.len(),
{
    if s.len() > 0 {
        lemma_sorted_by_index(s.drop_last());
        lemma_insert_by_index(sorted_by_index(s.drop_last()), s.last());
        vstd::seq_lib::to_multiset_build(s.drop_last(), s.last());
        assert(s.drop_last().push(s.last()) == s);
    }
}

/// Every record of a reordering of `a` is a record of `a`.
pub proof fn lemma_reordered_member<T>(a: Seq<T>, b: Seq<T>, i: int) -> (k: int)
    requires
        a.to_multiset() == b.to_multiset(),
        0 <= i < b.len(),
    ensures
        0 <= k < a.len(),
        a[k] == b[i],
{
    vstd::seq_lib::to_multiset_contains(b, b[i]);
    vstd::seq_lib::to_multiset_contains(a, b[i]);
    choose|k: int| 0 <= k < a.len() && a[k] == b[i]
}

/// The stable sort keeps batch indexes distinct.
pub proof fn lemma_sorted_distinct<T: IndexedRecord>(s: Seq<T>)
    requires
        has_distinct_keys(s),
    ensures
        has_distinct_keys(sorted_by_index(s)),
    decreases s.len(),
{
    if s.len() > 0 {
        let d = s.drop_last();
        let x = s.last();
        assert(has_distinct_keys(d)) by {
            assert forall|i: int, j: int| 0 <= i < j < d.len() implies d[i].key() != d[j].key() by {
                assert(d[i] == s[i]);
                assert(d[j] == s[j]);
            }
        }
        lemma_sorted_distinct(d);
        lemma_sorted_by_index(d);
        let t = sorted_by_index(d);
        assert forall|i: int| 0 <= i < t.len() implies t[i].key() != x.key() by {
            let k = lemma_reordered_member(d, t, i);
            assert(d[k] == s[k]);
            assert(x == s[s.len() - 1]);
        }
        let p = insert_position(t, x.key()) as int;
        lemma_insert_position_bounds(t, x.key());
        let r = t.insert(p, x);
        t.insert_ensures(p, x);
        assert forall|i: int, j: int| 0 <= i < j < r.len() implies r[i].key() != r[j].key() by {
            if j < p {
            } else if j == p {
            } else if i < p {
                assert(r[j] == t[j - 1]);
            } else if i == p {
                assert(r[j] == t[j - 1]);
            } else {
                assert(r[i] == t[i - 1]);
                assert(r[j] == t[j - 1]);
            }
        }
    }
}

/// Sorts `items` stably by batch index, so that records with equal indexes
/// keep their original order.
pub fn sort_by_index<T: IndexedRecord>(items: Vec<T>) -> (r: Vec<T>)
    ensures
        r@ == sorted_by_index(items@),
        is_index_ordered(r@),
        r@.to_multiset() == items@.to_multiset(),
        r@.len() == items@.len(),
{
    let ghost all = items@;
    let mut rest = items;
    let mut out: Vec<T> = Vec::new();
    let n = rest.len();
    let mut i: usize = 0;
    while i < n
        invariant
            i <= n,
            n == all.len(),
            rest@ == all.skip(i as int),
            out@ == sorted_by_index(all.take(i as int)),
        decreases n - i,
    {
        let x = rest.remove(0);
        assert(x == all[i as int]);
        let key = x.record_index();
        let mut p: usize = 0;
        while p < out.len() && out[p].record_index() <= key
            invariant
                p <= out@.len(),
                forall|j: int| 0 <= j < p ==> out@[j].key() <= key,
            decreases out@.len() - p,
        {
            p = p + 1;
        }
        proof {
            lemma_insert_position_at(out@, key, p as int);
            let t = all.take(i + 1);
            assert(t.drop_last() == all.take(i as int));
            assert(t.last() == x);
            assert(rest@ == all.skip(i + 1));
        }
        out.insert(p, x);
        i = i + 1;
    }
    proof {
        assert(all.take(n as int) == all);
        lemma_sorted_by_index(all);
    }
    out
}

} // verus!
