//! Grouping of a feed snapshot into one `(label tuple, count)` entry per class
//! of check-ins that share a label tuple.

use vstd::prelude::*;
use vstd::multiset::Multiset;
use crate::feed::Status;
use crate::labels::{LabelKey, LabelTuple, status_key, status_keys};

verus! {

broadcast use vstd::seq_lib::group_to_multiset_ensures;

/// One entry of an aggregate as a mathematical value.
pub type Entry = (LabelKey, nat);

/// The sum of the counts of a sequence of entries.
pub open spec fn total(a: Seq<Entry>) -> nat
    decreases a.len(),
{
    if a.len() == 0 {
        0
    } else {
        total(a.drop_last()) + a.last().1
    }
}

/// No two entries share a label tuple.
pub open spec fn keys_distinct(a: Seq<Entry>) -> bool {
    forall|i: int, j: int| 0 <= i < j < a.len() ==> a[i].0 != a[j].0
}

/// `a` is the grouping of the label tuples `keys`: one entry per distinct
/// tuple, whose count is how often the tuple occurs.
pub open spec fn is_aggregate_of(a: Seq<Entry>, keys: Seq<LabelKey>) -> bool {
    &&& keys_distinct(a)
    &&& forall|i: int|
        #![trigger a[i]]
        0 <= i < a.len() ==> keys.contains(a[i].0) && a[i].1 == keys.to_multiset().count(a[i].0)
    &&& forall|k: LabelKey| #[trigger] keys.contains(k) ==> exists|i: int| 0 <= i < a.len() && a[i].0 == k
}

/// The mathematical value of a sequence of entries.
pub open spec fn entries_view(v: Seq<(LabelTuple, usize)>) -> Seq<Entry> {
    v.map_values(|e: (LabelTuple, usize)| (e.0@, e.1 as nat))
}

/// The classes of one snapshot, with the number of check-ins in each.
#[derive(Clone, Debug)]
pub struct Aggregate {
    pub entries: Vec<(LabelTuple, usize)>,
}

impl View for Aggregate {
    type V = Seq<Entry>;

    open spec fn view(&self) -> Seq<Entry> {
        entries_view(self.entries@)
    }
}

proof fn lemma_total_update(a: Seq<Entry>, j: int, e: Entry)
    requires
        0 <= j < a.len(),
    ensures
        total(a.update(j, e)) + a[j].1 == total(a) + e.1,
    decreases a.len(),
{
    if j < a.len() - 1 {
        assert(a.update(j, e).drop_last() =~= a.drop_last().update(j, e));
        lemma_total_update(a.drop_last(), j, e);
    } else {
        assert(a.update(j, e).drop_last() =~= a.drop_last());
    }
}

impl Aggregate {
    /// A copy of the aggregate.
    pub fn duplicate(&self) -> (r: Aggregate)
        ensures
            r@ == self@,
    {
        let mut entries: Vec<(LabelTuple, usize)> = Vec::new();
        let mut i: usize = 0;
        while i < self.entries.len()
            invariant
                i <= self.entries@.len(),
                entries@.len() == i,
                entries_view(entries@) == entries_view(self.entries@).take(i as int),
            decreases self.entries@.len() - i,
        {
            let e = (self.entries[i].0.duplicate(), self.entries[i].1);
            let ghost prev = entries@;
            entries.push(e);
            assert(entries@ =~= prev.push(e));
            assert(entries_view(entries@)[i as int] == entries_view(self.entries@)[i as int]);
            assert(entries_view(entries@) =~= entries_view(self.entries@).take(i + 1));
            i = i + 1;
        }
        assert(entries_view(self.entries@).take(self.entries@.len() as int) =~= entries_view(
            self.entries@,
        ));
        Aggregate { entries }
    }

    /// Groups the check-ins of a snapshot by label tuple. The entries are the
    /// distinct tuples, each with the number of check-ins that have it; their
    /// counts add up to the size of the snapshot.
    #[verifier::loop_isolation(false)]
    pub fn of_statuses(statuses: &Vec<Status>) -> (r: Aggregate)
        ensures
            is_aggregate_of(r@, status_keys(statuses@)),
            r@.len() <= statuses@.len(),
            total(r@) == statuses@.len(),
    {
        let ghost keys = status_keys(statuses@);
        let mut entries: Vec<(LabelTuple, usize)> = Vec::new();
        let mut i: usize = 0;
        while i < statuses.len()
            invariant
                i <= statuses@.len(),
                keys == status_keys(statuses@),
                is_aggregate_of(
                    entries_view(entries@),
                    keys.take(i as int),
                ),
                entries@.len() <= i,
                total(entries_view(entries@)) == i,
                forall|j: int| 0 <= j < entries@.len() ==> #[trigger] entries@[j].1 <= i,
            decreases statuses@.len() - i,
        {
            let ghost before = entries_view(entries@);
            let tuple = LabelTuple::of_status(&statuses[i]);
            let ghost k = tuple@;
            assert(keys[i as int] == k);
            assert(keys.take(i + 1) =~= keys.take(i as int).push(k));
            let mut j: usize = 0;
            let mut found = false;
            while !found && j < entries.len()
                invariant
                    j <= entries@.len(),
                    found ==> j < entries@.len() && entries@[j as int].0@ == k,
                    !found ==> forall|m: int| 0 <= m < j ==> #[trigger] entries@[m].0@ != k,
                decreases entries@.len() - j + (if found { 0int } else { 1int }),
            {
                if entries[j].0.same_labels(&tuple) {
                    found = true;
                } else {
                    j = j + 1;
                }
            }
            let ghost old_keys = keys.take(i as int);
            let ghost ks = keys.take(i + 1);
            assert(ks.to_multiset() =~= old_keys.to_multiset().insert(k));
            if found {
                let c = entries[j].1 + 1;
                entries.set(j, (tuple, c));
                proof {
                    let after = entries_view(entries@);
                    assert(after =~= before.update(j as int, (k, c as nat)));
                    lemma_total_update(before, j as int, (k, c as nat));
                    assert(keys_distinct(after)) by {
                        assert forall|m1: int, m2: int| 0 <= m1 < m2 < after.len() implies after[m1].0
                            != after[m2].0 by {
                            assert(before[m1].0 != before[m2].0);
                        }
                    }
                    assert forall|m: int| #![trigger after[m]] 0 <= m < after.len() implies ks.contains(
                        after[m].0) && after[m].1 == ks.to_multiset().count(after[m].0) by {
                        assert(before[m].1 == old_keys.to_multiset().count(before[m].0));
                        assert(old_keys.contains(before[m].0));
                        let n = choose|n: int| 0 <= n < old_keys.len() && old_keys[n] == before[m].0;
                        assert(ks[n] == after[m].0);
                    }
                    assert forall|k2: LabelKey| #[trigger] ks.contains(k2) implies exists|m: int|
                        0 <= m < after.len() && after[m].0 == k2 by {
                        if k2 != k {
                            let n = choose|n: int| 0 <= n < ks.len() && ks[n] == k2;
                            assert(old_keys[n] == k2);
                            assert(old_keys.contains(k2));
                            let m = choose|m: int| 0 <= m < before.len() && before[m].0 == k2;
                            assert(after[m].0 == k2);
                        } else {
                            assert(after[j as int].0 == k2);
                        }
                    }
                    assert(keys_distinct(after));
                    assert(is_aggregate_of(after, ks));
                }
            } else {
                entries.push((tuple, 1));
                proof {
                    let after = entries_view(entries@);
                    assert(after =~= before.push((k, 1nat)));
                    assert(after.drop_last() =~= before);
                    assert(keys_distinct(after)) by {
                        assert forall|m1: int, m2: int| 0 <= m1 < m2 < after.len() implies after[m1].0
                            != after[m2].0 by {
                            if m2 < before.len() {
                                assert(before[m1].0 != before[m2].0);
                            } else {
                                assert(entries@[m1].0@ != k);
                            }
                        }
                    }
                    assert(!old_keys.contains(k)) by {
                        if old_keys.contains(k) {
                            let m = choose|m: int| 0 <= m < before.len() && before[m].0 == k;
                            assert(entries@[m].0@ == k);
                        }
                    }
                    assert forall|m: int| #![trigger after[m]] 0 <= m < after.len() implies ks.contains(
                        after[m].0) && after[m].1 == ks.to_multiset().count(after[m].0) by {
                        if m < before.len() {
                            assert(before[m].1 == old_keys.to_multiset().count(before[m].0));
                            assert(old_keys.contains(before[m].0));
                            let n = choose|n: int| 0 <= n < old_keys.len() && old_keys[n] == before[m].0;
                            assert(ks[n] == after[m].0);
                        } else {
                            assert(ks[i as int] == k);
                        }
                    }
                    assert forall|k2: LabelKey| #[trigger] ks.contains(k2) implies exists|m: int|
                        0 <= m < after.len() && after[m].0 == k2 by {
                        if k2 != k {
                            let n = choose|n: int| 0 <= n < ks.len() && ks[n] == k2;
                            assert(old_keys[n] == k2);
                            assert(old_keys.contains(k2));
                            let m = choose|m: int| 0 <= m < before.len() && before[m].0 == k2;
                            assert(after[m].0 == k2);
                        } else {
                            assert(after[after.len() - 1].0 == k2);
                        }
                    }
                    assert(keys_distinct(after));
                    assert(is_aggregate_of(after, ks));
                }
            }
            i = i + 1;
        }
        assert(keys.take(statuses@.len() as int) =~= keys);
        Aggregate { entries }
    }
}

/// Entry `c` of `a` is the class of the label tuple `k`.
pub open spec fn in_class(a: Seq<Entry>, c: int, k: LabelKey) -> bool {
    0 <= c < a.len() && a[c].0 == k
}

/// Two check-ins of a snapshot have the same label tuple exactly when they
/// fall into the same class of its aggregate; and each check-in falls into
/// exactly one class.
pub proof fn lemma_same_tuple_same_class(statuses: Seq<Status>, a: Seq<Entry>, x: int, y: int)
    requires
        is_aggregate_of(a, status_keys(statuses)),
        0 <= x < statuses.len(),
        0 <= y < statuses.len(),
    ensures
        (status_key(statuses[x]) == status_key(statuses[y])) <==> exists|c: int|
            in_class(a, c, status_key(statuses[x])) && in_class(a, c, status_key(statuses[y])),
        exists|c: int| in_class(a, c, status_key(statuses[x])),
        forall|c1: int, c2: int|
            in_class(a, c1, status_key(statuses[x])) && in_class(a, c2, status_key(statuses[x]))
                ==> c1 == c2,
{
    let keys = status_keys(statuses);
    let kx = status_key(statuses[x]);
    let ky = status_key(statuses[y]);
    assert(keys[x] == kx);
    assert(keys[y] == ky);
    assert(keys.contains(kx));
    assert(keys.contains(ky));
    let c = choose|c: int| 0 <= c < a.len() && a[c].0 == kx;
    assert(in_class(a, c, kx));
    if kx == ky {
        assert(in_class(a, c, ky));
    }
    assert forall|c1: int, c2: int| in_class(a, c1, kx) && in_class(a, c2, kx) implies c1 == c2 by {
        if c1 < c2 {
            assert(a[c1].0 != a[c2].0);
        } else if c2 < c1 {
            assert(a[c2].0 != a[c1].0);
        }
    }
}

proof fn lemma_multiset_readd<A>(m: Multiset<A>, v: A)
    requires
        m.count(v) > 0,
    ensures
        m.remove(v).insert(v) == m,
{
    broadcast use vstd::multiset::group_multiset_axioms;

    assert(m.remove(v).insert(v) =~= m);
}

/// Snapshots that are permutations of each other have the same label tuples,
/// as a multiset.
pub proof fn lemma_permuted_keys(s1: Seq<Status>, s2: Seq<Status>)
    requires
        s1.to_multiset() == s2.to_multiset(),
    ensures
        status_keys(s1).to_multiset() == status_keys(s2).to_multiset(),
    decreases s1.len(),
{
    broadcast use vstd::multiset::group_multiset_axioms;

    if s1.len() == 0 {
        assert(s1.to_multiset().len() == 0);
        assert(s2.to_multiset().len() == s2.len());
        assert(s2.len() == 0);
        assert(status_keys(s1) =~= Seq::<LabelKey>::empty());
        assert(status_keys(s2) =~= Seq::<LabelKey>::empty());
    } else {
        let x = s1.last();
        let t1 = s1.drop_last();
        assert(t1.push(x) =~= s1);
        assert(s1.to_multiset() == t1.to_multiset().insert(x));
        assert(s2.to_multiset().count(x) > 0);
        assert(s2.contains(x));
        let j = choose|j: int| 0 <= j < s2.len() && s2[j] == x;
        let t2 = s2.remove(j);
        assert(t2.to_multiset() == s2.to_multiset().remove(x));
        assert(t2.to_multiset() =~= t1.to_multiset());
        lemma_permuted_keys(t1, t2);
        let kx = status_key(x);
        assert(status_keys(s1) =~= status_keys(t1).push(kx));
        assert(status_keys(t2) =~= status_keys(s2).remove(j));
        assert(status_keys(s2)[j] == kx);
        assert(status_keys(t2).to_multiset() == status_keys(s2).to_multiset().remove(kx));
        assert(status_keys(s2).contains(kx));
        lemma_multiset_readd(status_keys(s2).to_multiset(), kx);
    }
}

proof fn lemma_entry_count(a: Seq<Entry>, keys: Seq<LabelKey>, p: Entry)
    requires
        is_aggregate_of(a, keys),
    ensures
        a.to_multiset().count(p) == if keys.to_multiset().count(p.0) > 0 && p.1
            == keys.to_multiset().count(p.0) {
            1nat
        } else {
            0nat
        },
{
    assert(a.no_duplicates()) by {
        assert forall|i: int, j: int| 0 <= i < a.len() && 0 <= j < a.len() && i != j implies a[i]
            != a[j] by {
            if i < j {
                assert(a[i].0 != a[j].0);
            } else {
                assert(a[j].0 != a[i].0);
            }
        }
    }
    a.lemma_multiset_has_no_duplicates();
    if keys.to_multiset().count(p.0) > 0 && p.1 == keys.to_multiset().count(p.0) {
        assert(keys.contains(p.0));
        let i = choose|i: int| 0 <= i < a.len() && a[i].0 == p.0;
        assert(a[i] == p);
        assert(a.contains(p));
    } else if a.contains(p) {
        let i = choose|i: int| 0 <= i < a.len() && a[i] == p;
        assert(keys.contains(a[i].0));
    }
}

/// Grouping does not depend on the order of the snapshot: the aggregates of
/// two permutations of one snapshot hold the same `(label tuple, count)`
/// entries, as multisets.
pub proof fn lemma_aggregate_permutation(
    s1: Seq<Status>,
    s2: Seq<Status>,
    a1: Seq<Entry>,
    a2: Seq<Entry>,
)
    requires
        s1.to_multiset() == s2.to_multiset(),
        is_aggregate_of(a1, status_keys(s1)),
        is_aggregate_of(a2, status_keys(s2)),
    ensures
        a1.to_multiset() == a2.to_multiset(),
{
    lemma_permuted_keys(s1, s2);
    assert forall|p: Entry| a1.to_multiset().count(p) == a2.to_multiset().count(p) by {
        lemma_entry_count(a1, status_keys(s1), p);
        lemma_entry_count(a2, status_keys(s2), p);
    }
    assert(a1.to_multiset() =~= a2.to_multiset());
}

} // verus!
