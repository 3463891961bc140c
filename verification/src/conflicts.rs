//! Separating items whose key is unique from groups of items that share a key.

use vstd::prelude::*;

use crate::package_id::{LightPackageId, PackageId};
use crate::text::str_eq;

verus! {

/// Keys that can be compared for equality of their views.
pub trait ConflictKey: View + Sized {
    fn key_eq(&self, other: &Self) -> (r: bool)
        ensures
            r == (self@ == other@);
}

impl ConflictKey for String {
    fn key_eq(&self, other: &Self) -> (r: bool) {
        str_eq(self.as_str(), other.as_str())
    }
}

impl ConflictKey for PackageId {
    fn key_eq(&self, other: &Self) -> (r: bool) {
        str_eq(self.remote.as_str(), other.remote.as_str()) && str_eq(self.category.as_str(), other.category.as_str())
            && str_eq(self.package.as_str(), other.package.as_str())
    }
}

impl<'a> ConflictKey for LightPackageId<'a> {
    fn key_eq(&self, other: &Self) -> (r: bool) {
        str_eq(self.remote, other.remote) && str_eq(self.category, other.category) && str_eq(self.package, other.package)
    }
}

/// The positions below `n` that satisfy `p`, in increasing order.
pub open spec fn indices_where(n: nat, p: spec_fn(int) -> bool) -> Seq<int>
    decreases n,
{
    if n == 0 {
        Seq::empty()
    } else {
        let s = indices_where((n - 1) as nat, p);
        if p(n - 1) {
            s.push(n - 1)
        } else {
            s
        }
    }
}

/// The items at the given positions.
pub open spec fn at_positions<T>(items: Seq<T>, positions: Seq<int>) -> Seq<T> {
    positions.map_values(|i: int| items[i])
}

/// The positions of the keys equal to `k`.
pub open spec fn positions_of<V>(kv: Seq<V>, k: V) -> Seq<int> {
    indices_where(kv.len(), same_key(kv, k))
}

/// The predicate "the key at this position is `k`".
pub open spec fn same_key<V>(kv: Seq<V>, k: V) -> spec_fn(int) -> bool {
    |j: int| kv[j] == k
}

/// No key before position `i` equals the key at `i`.
pub open spec fn is_first_of_key<V>(kv: Seq<V>, i: int) -> bool {
    forall|j: int| 0 <= j < i ==> kv[j] != kv[i]
}

/// No other position holds the key at `i`.
pub open spec fn is_unique_key<V>(kv: Seq<V>, i: int) -> bool {
    forall|j: int| 0 <= j < kv.len() && j != i ==> kv[j] != kv[i]
}

/// The predicate "the key at this position occurs nowhere else".
pub open spec fn unique_pred<V>(kv: Seq<V>) -> spec_fn(int) -> bool {
    |i: int| is_unique_key(kv, i)
}

/// The predicate "this is the first of several positions that share a key".
pub open spec fn conflict_pred<V>(kv: Seq<V>) -> spec_fn(int) -> bool {
    |i: int| is_first_of_key(kv, i) && !is_unique_key(kv, i)
}

/// The keys of key/value entries, by their views.
pub open spec fn entry_keys<K: View, T>(entries: Seq<(K, T)>) -> Seq<K::V> {
    entries.map_values(|e: (K, T)| e.0@)
}

/// The values of key/value entries.
pub open spec fn entry_values<K, T>(entries: Seq<(K, T)>) -> Seq<T> {
    entries.map_values(|e: (K, T)| e.1)
}

/// The keys held in slots, by their views.
pub open spec fn slot_keys<K: View>(slots: Seq<Option<K>>) -> Seq<K::V> {
    slots.map_values(|o: Option<K>| o->0@)
}

/// `conflict` is the group of all entries that share the key at position `i`, headed by
/// that key.
pub open spec fn describes_conflict<K: View, T>(entries: Seq<(K, T)>, i: int, conflict: (K, Vec<T>)) -> bool {
    &&& conflict.0 == entries[i].0
    &&& conflict.1@ == at_positions(entry_values(entries), positions_of(entry_keys(entries), entry_keys(entries)[i]))
}

/// `rep[q]` is the first position whose key equals the key at `q`.
pub open spec fn first_occurrence_at<V>(kv: Seq<V>, rep: Seq<usize>, q: int) -> bool {
    &&& rep[q] <= q
    &&& kv[rep[q] as int] == kv[q]
    &&& forall|m: int| 0 <= m < rep[q] ==> kv[m] != kv[q]
}

/// Positions whose key occurs exactly once.
pub open spec fn unique_positions<V>(kv: Seq<V>) -> Seq<int> {
    indices_where(kv.len(), unique_pred(kv))
}

/// First positions of keys that occur more than once, in order.
pub open spec fn conflict_positions<V>(kv: Seq<V>) -> Seq<int> {
    indices_where(kv.len(), conflict_pred(kv))
}

/// Membership in `indices_where`.
pub proof fn lemma_indices_where(n: nat, p: spec_fn(int) -> bool)
    ensures
        forall|k: int| 0 <= k < indices_where(n, p).len() ==> 0 <= #[trigger] indices_where(n, p)[k] < n && p(indices_where(n, p)[k]),
        forall|k1: int, k2: int| 0 <= k1 < k2 < indices_where(n, p).len() ==> indices_where(n, p)[k1] < indices_where(n, p)[k2],
        forall|i: int| 0 <= i < n && p(i) ==> indices_where(n, p).contains(i),
        indices_where(n, p).len() <= n,
    decreases n,
{
    if n > 0 {
        lemma_indices_where((n - 1) as nat, p);
        let s = indices_where((n - 1) as nat, p);
        if p(n - 1) {
            let t = s.push(n - 1);
            assert(indices_where(n, p) == t);
            assert forall|i: int| 0 <= i < n && p(i) implies t.contains(i) by {
                if i < n - 1 {
                    assert(s.contains(i));
                    let k = choose|k: int| 0 <= k < s.len() && s[k] == i;
                    assert(t[k] == i);
                } else {
                    assert(t[s.len() as int] == i);
                }
            }
        }
    }
}

/// `indices_where` only depends on the predicate below `n`.
pub proof fn lemma_indices_where_ext(n: nat, p: spec_fn(int) -> bool, q: spec_fn(int) -> bool)
    requires
        forall|i: int| 0 <= i < n ==> #[trigger] p(i) == q(i),
    ensures
        indices_where(n, p) == indices_where(n, q),
    decreases n,
{
    if n > 0 {
        lemma_indices_where_ext((n - 1) as nat, p, q);
    }
}

/// Splits entries into their keys and their values, each held in a slot.
fn split_entries<K, T>(entries: Vec<(K, T)>) -> (r: (Vec<Option<K>>, Vec<Option<T>>))
    ensures
        r.0.len() == entries.len(),
        r.1.len() == entries.len(),
        forall|q: int| 0 <= q < entries.len() ==> r.0@[q] == Some(entries@[q].0) && r.1@[q] == Some(entries@[q].1),
{
    let ghost orig = entries@;
    let mut rest = entries;
    let mut keys: Vec<Option<K>> = Vec::new();
    let mut values: Vec<Option<T>> = Vec::new();
    while rest.len() > 0
        invariant
            keys.len() == values.len(),
            keys.len() + rest.len() == orig.len(),
            rest@ == orig.skip(keys.len() as int),
            forall|q: int| 0 <= q < keys.len() ==> keys@[q] == Some(orig[q].0) && values@[q] == Some(orig[q].1),
        decreases rest.len(),
    {
        let (k, t) = rest.remove(0);
        assert(rest@ =~= orig.skip(keys.len() + 1));
        keys.push(Some(k));
        values.push(Some(t));
    }
    (keys, values)
}

/// Takes the content of slot `j`, leaving it empty.
pub(crate) fn take_slot<T>(slots: &mut Vec<Option<T>>, j: usize) -> (r: Option<T>)
    requires
        j < old(slots).len(),
    ensures
        r == old(slots)@[j as int],
        final(slots)@ == old(slots)@.update(j as int, None),
{
    let r = slots.remove(j);
    slots.insert(j, None);
    assert(slots@ =~= old(slots)@.update(j as int, None));
    r
}

/// Compares the keys held in two full slots.
fn slot_key_eq<K: ConflictKey>(a: &Option<K>, b: &Option<K>) -> (r: bool)
    requires
        a is Some,
        b is Some,
    ensures
        r == (a->0@ == b->0@),
{
    match (a, b) {
        (Some(x), Some(y)) => x.key_eq(y),
        _ => false,
    }
}

/// For each position the first position with an equal key, and for each position whether a
/// later position has an equal key.
fn first_occurrences<K: ConflictKey>(keys: &Vec<Option<K>>) -> (r: (Vec<usize>, Vec<bool>))
    requires
        forall|q: int| 0 <= q < keys.len() ==> keys@[q] is Some,
    ensures
        r.0.len() == keys.len(),
        r.1.len() == keys.len(),
        forall|q: int| 0 <= q < keys.len() ==> first_occurrence_at(slot_keys(keys@), r.0@, q),
        forall|x: int| 0 <= x < keys.len() && r.0@[x] == x ==> (r.1@[x] <==> exists|q: int|
            x < q < keys.len() && slot_keys(keys@)[q] == slot_keys(keys@)[x]),
{
    let n = keys.len();
    let ghost kv = slot_keys(keys@);
    let mut rep: Vec<usize> = Vec::new();
    let mut shared: Vec<bool> = Vec::new();
    let mut j: usize = 0;
    while j < n
        invariant
            n == keys.len(),
            j <= n,
            rep.len() == j,
            shared.len() == j,
            kv == slot_keys(keys@),
            forall|q: int| 0 <= q < n ==> keys@[q] is Some,
            forall|q: int| 0 <= q < j ==> first_occurrence_at(kv, rep@, q),
            forall|x: int| 0 <= x < j && rep@[x] == x ==> (shared@[x] <==> exists|q: int| x < q < j && kv[q] == kv[x]),
        decreases n - j,
    {
        let mut m: usize = 0;
        let mut found = false;
        while !found && m < j
            invariant
                m <= j,
                j < n,
                n == keys.len(),
                kv == slot_keys(keys@),
                forall|q: int| 0 <= q < n ==> keys@[q] is Some,
                found ==> m < j && kv[m as int] == kv[j as int],
                forall|x: int| 0 <= x < m ==> kv[x] != kv[j as int],
            decreases j - m + (if found { 0int } else { 1int }),
        {
            if slot_key_eq(&keys[m], &keys[j]) {
                found = true;
            } else {
                m = m + 1;
            }
        }
        let ghost old_rep = rep@;
        let ghost old_shared = shared@;
        rep.push(m);
        shared.push(false);
        if m < j {
            shared.set(m, true);
        }
        proof {
            assert(first_occurrence_at(kv, rep@, j as int));
            assert forall|q: int| 0 <= q < j + 1 implies first_occurrence_at(kv, rep@, q) by {
                if q < j {
                    assert(first_occurrence_at(kv, old_rep, q));
                    assert(rep@[q] == old_rep[q]);
                }
            }
            assert forall|x: int| 0 <= x < j + 1 && rep@[x] == x implies (shared@[x] <==> exists|q: int|
                x < q < j + 1 && kv[q] == kv[x]) by {
                if x == j {
                } else if x == m {
                    assert(kv[j as int] == kv[x]);
                } else {
                    assert(rep@[x] == old_rep[x]);
                    assert(shared@[x] == old_shared[x]);
                    assert(first_occurrence_at(kv, old_rep, x));
                    assert(kv[j as int] != kv[x]) by {
                        if m < x {
                            assert(found);
                            assert(kv[m as int] != kv[x]);
                        } else {
                            assert(kv[x] != kv[j as int]);
                        }
                    }
                    if exists|q: int| x < q < j + 1 && kv[q] == kv[x] {
                        let q = choose|q: int| x < q < j + 1 && kv[q] == kv[x];
                        assert(q < j);
                    }
                }
            }
        }
        j = j + 1;
    }
    (rep, shared)
}

/// Splits entries into those whose key occurs once and groups of entries sharing a key.
///
/// The first result holds the values whose key no other entry has, in their order. The
/// second holds one group for each key that several entries share, ordered by the key's
/// first occurrence: the key of that first entry, with the values of all entries that have
/// that key, in their order.
pub fn weed_out_conflicts<K: ConflictKey, T>(entries: Vec<(K, T)>) -> (r: (Vec<T>, Vec<(K, Vec<T>)>))
    ensures
        r.0@ == at_positions(entry_values(entries@), unique_positions(entry_keys(entries@))),
        r.1.len() == conflict_positions(entry_keys(entries@)).len(),
        forall|c: int| 0 <= c < r.1.len() ==> describes_conflict(entries@, #[trigger] conflict_positions(entry_keys(entries@))[c], r.1@[c]),
{
    let ghost orig = entries@;
    let ghost items = entry_values(orig);
    let ghost kv = entry_keys(orig);
    let (mut key_slots, mut slots) = split_entries(entries);
    assert(slot_keys(key_slots@) =~= kv);
    let n = slots.len();
    let (rep, shared) = first_occurrences(&key_slots);
    let mut cool: Vec<T> = Vec::new();
    let mut conflicts: Vec<(K, Vec<T>)> = Vec::new();
    let mut i: usize = 0;
    while i < n
        invariant
            n == slots.len(),
            n == key_slots.len(),
            n == rep.len(),
            n == shared.len(),
            n == orig.len(),
            items == entry_values(orig),
            kv == entry_keys(orig),
            i <= n,
            forall|q: int| 0 <= q < n ==> first_occurrence_at(kv, rep@, q),
            forall|x: int| 0 <= x < n && rep@[x] == x ==> (shared@[x] <==> exists|q: int| x < q < n && kv[q] == kv[x]),
            forall|q: int| 0 <= q < n && rep@[q] >= i ==> slots@[q] == Some(items[q]),
            forall|q: int| i <= q < n ==> key_slots@[q] == Some(orig[q].0),
            cool@ == at_positions(items, indices_where(i as nat, unique_pred(kv))),
            conflicts.len() == indices_where(i as nat, conflict_pred(kv)).len(),
            forall|c: int| 0 <= c < conflicts.len() ==> describes_conflict(orig, #[trigger] indices_where(i as nat, conflict_pred(kv))[c], conflicts@[c]),
        decreases n - i,
    {
        let ghost old_cool = cool@;
        let ghost old_conflicts = conflicts@;
        proof {
            assert(first_occurrence_at(kv, rep@, i as int));
        }
        if rep[i] == i && !shared[i] {
            assert(unique_pred(kv)(i as int)) by {
                assert forall|j: int| 0 <= j < kv.len() && j != i implies kv[j] != kv[i as int] by {
                    if j > i {
                        assert(!(i < j < n && kv[j] == kv[i as int]));
                    }
                }
            }
            let item = take_slot(&mut slots, i);
            cool.push(item.unwrap());
            assert(cool@ =~= at_positions(items, indices_where((i + 1) as nat, unique_pred(kv))));
        } else if rep[i] == i {
            let key = take_slot(&mut key_slots, i).unwrap();
            let mut group: Vec<T> = Vec::new();
            let mut j: usize = i;
            proof {
                lemma_indices_where(i as nat, same_key(kv, kv[i as int]));
                assert(indices_where(i as nat, same_key(kv, kv[i as int])).len() == 0) by {
                    let s = indices_where(i as nat, same_key(kv, kv[i as int]));
                    if s.len() > 0 {
                        assert(same_key(kv, kv[i as int])(s[0]));
                    }
                }
                assert(group@ =~= at_positions(items, indices_where(j as nat, same_key(kv, kv[i as int]))));
            }
            while j < n
                invariant
                    i <= j <= n,
                    i < n,
                    n == slots.len(),
                    n == rep.len(),
                    n == orig.len(),
                    items == entry_values(orig),
                    kv == entry_keys(orig),
                    rep@[i as int] == i,
                    forall|q: int| 0 <= q < n ==> first_occurrence_at(kv, rep@, q),
                    forall|q: int| 0 <= q < n && (rep@[q] > i || (rep@[q] == i && q >= j)) ==> slots@[q] == Some(items[q]),
                    group@ == at_positions(items, indices_where(j as nat, same_key(kv, kv[i as int]))),
                decreases n - j,
            {
                proof {
                    assert(first_occurrence_at(kv, rep@, j as int));
                    assert(first_occurrence_at(kv, rep@, i as int));
                    assert((rep@[j as int] == i) == same_key(kv, kv[i as int])(j as int)) by {
                        if kv[j as int] == kv[i as int] {
                            if rep@[j as int] < i {
                                assert(kv[rep@[j as int] as int] == kv[i as int]);
                            }
                            if rep@[j as int] > i {
                                assert(kv[i as int] != kv[j as int]);
                            }
                        }
                    }
                }
                if rep[j] == i {
                    let item = take_slot(&mut slots, j);
                    group.push(item.unwrap());
                    assert(group@ =~= at_positions(items, indices_where((j + 1) as nat, same_key(kv, kv[i as int]))));
                }
                j = j + 1;
            }
            assert(conflict_pred(kv)(i as int)) by {
                let q = choose|q: int| i < q < n && kv[q] == kv[i as int];
            }
            proof {
                let ghost prev = indices_where(i as nat, conflict_pred(kv));
                let ghost next = indices_where((i + 1) as nat, conflict_pred(kv));
                assert(next == prev.push(i as int));
                assert(describes_conflict(orig, i as int, (key, group)));
                assert forall|c: int| 0 <= c < prev.len() implies next[c] == prev[c] by {}
            }
            conflicts.push((key, group));
        } else {
            proof {
                assert(!unique_pred(kv)(i as int)) by {
                    assert(kv[rep@[i as int] as int] == kv[i as int]);
                }
                assert(!conflict_pred(kv)(i as int)) by {
                    assert(kv[rep@[i as int] as int] == kv[i as int]);
                }
            }
        }
        i = i + 1;
    }
    proof {
        assert(forall|c: int| 0 <= c < conflicts.len() ==> describes_conflict(orig, #[trigger] conflict_positions(kv)[c], conflicts@[c]));
    }
    (cool, conflicts)
}

/// No two of the values that `weed_out_conflicts` keeps have the same key.
pub proof fn law_kept_keys_distinct<V>(kv: Seq<V>, a: int, b: int)
    requires
        0 <= a < unique_positions(kv).len(),
        0 <= b < unique_positions(kv).len(),
        a != b,
    ensures
        kv[unique_positions(kv)[a]] != kv[unique_positions(kv)[b]],
{
    lemma_indices_where(kv.len(), unique_pred(kv));
    let u = unique_positions(kv);
    assert(unique_pred(kv)(u[a]));
    if a < b {
        assert(u[a] < u[b]);
    } else {
        assert(u[b] < u[a]);
    }
}

/// Every entry is either kept, when no other entry has its key, or lies in the group of
/// exactly one conflict, whose key is its own.
pub proof fn law_every_entry_kept_or_grouped<V>(kv: Seq<V>, q: int)
    requires
        0 <= q < kv.len(),
    ensures
        unique_positions(kv).contains(q) <==> is_unique_key(kv, q),
        !is_unique_key(kv, q) ==> exists|c: int|
            0 <= c < conflict_positions(kv).len() && kv[#[trigger] conflict_positions(kv)[c]] == kv[q]
                && positions_of(kv, kv[conflict_positions(kv)[c]]).contains(q),
        forall|c1: int, c2: int|
            0 <= c1 < c2 < conflict_positions(kv).len() ==> kv[#[trigger] conflict_positions(kv)[c1]]
                != kv[#[trigger] conflict_positions(kv)[c2]],
{
    lemma_indices_where(kv.len(), unique_pred(kv));
    lemma_indices_where(kv.len(), conflict_pred(kv));
    lemma_indices_where(kv.len(), same_key(kv, kv[q]));
    let u = unique_positions(kv);
    let cp = conflict_positions(kv);
    if u.contains(q) {
        let k = choose|k: int| 0 <= k < u.len() && u[k] == q;
        assert(unique_pred(kv)(u[k]));
    }
    if !is_unique_key(kv, q) {
        // the first position with the key of q
        lemma_first_position(kv, q);
        let f = choose|f: int| is_first_position(kv, f, q);
        assert(conflict_pred(kv)(f)) by {
            let j = choose|j: int| 0 <= j < kv.len() && j != q && kv[j] == kv[q];
            if f == q {
                assert(kv[j] == kv[f] && j != f);
            } else {
                assert(kv[q] == kv[f] && q != f);
            }
        }
        assert(cp.contains(f));
        let c = choose|c: int| 0 <= c < cp.len() && cp[c] == f;
        assert(same_key(kv, kv[q])(q));
        assert(kv[cp[c]] == kv[q]);
    }
    assert forall|c1: int, c2: int| 0 <= c1 < c2 < cp.len() implies kv[#[trigger] cp[c1]] != kv[#[trigger] cp[c2]] by {
        assert(conflict_pred(kv)(cp[c2]));
        assert(cp[c1] < cp[c2]);
    }
}

/// Each group that `weed_out_conflicts` reports holds at least two entries, all with the
/// group's key.
pub proof fn law_conflict_groups_share_key<V>(kv: Seq<V>, c: int)
    requires
        0 <= c < conflict_positions(kv).len(),
    ensures
        positions_of(kv, kv[conflict_positions(kv)[c]]).len() >= 2,
        forall|k: int| 0 <= k < positions_of(kv, kv[conflict_positions(kv)[c]]).len() ==>
            kv[#[trigger] positions_of(kv, kv[conflict_positions(kv)[c]])[k]] == kv[conflict_positions(kv)[c]],
{
    lemma_indices_where(kv.len(), conflict_pred(kv));
    let f = conflict_positions(kv)[c];
    assert(conflict_pred(kv)(f));
    lemma_indices_where(kv.len(), same_key(kv, kv[f]));
    let s = positions_of(kv, kv[f]);
    let j = choose|j: int| 0 <= j < kv.len() && j != f && kv[j] == kv[f];
    assert(same_key(kv, kv[f])(j));
    assert(same_key(kv, kv[f])(f));
    assert(s.contains(j) && s.contains(f));
    if s.len() < 2 {
        let a = choose|a: int| 0 <= a < s.len() && s[a] == j;
        let b = choose|b: int| 0 <= b < s.len() && s[b] == f;
        assert(a == b);
    }
    assert forall|k: int| 0 <= k < s.len() implies kv[#[trigger] s[k]] == kv[f] by {
        assert(same_key(kv, kv[f])(s[k]));
    }
}

/// `f` is the first position with the key at `q`.
pub open spec fn is_first_position<V>(kv: Seq<V>, f: int, q: int) -> bool {
    0 <= f <= q && kv[f] == kv[q] && forall|m: int| 0 <= m < f ==> kv[m] != kv[q]
}

/// Some position at or before `q` is the first with the key at `q`.
proof fn lemma_first_position<V>(kv: Seq<V>, q: int)
    requires
        0 <= q < kv.len(),
    ensures
        exists|f: int| is_first_position(kv, f, q),
    decreases q,
{
    if exists|m: int| 0 <= m < q && kv[m] == kv[q] {
        let m = choose|m: int| 0 <= m < q && kv[m] == kv[q];
        lemma_first_position(kv, m);
        let f = choose|f: int| is_first_position(kv, f, m);
        assert(is_first_position(kv, f, q));
    } else {
        assert(is_first_position(kv, q, q));
    }
}

/// The predicate "this entry failed".
pub open spec fn failed_pred<K, T, E>(results: Seq<(K, Result<T, E>)>) -> spec_fn(int) -> bool {
    |i: int| results[i].1 is Err
}

/// Some entry failed with the key at `i`.
pub open spec fn failed_with_key<K: View, T, E>(results: Seq<(K, Result<T, E>)>, i: int) -> bool {
    exists|j: int| 0 <= j < results.len() && results[j].1 is Err && #[trigger] results[j].0@ == results[i].0@
}

/// The predicate "this entry succeeded and no entry with its key failed".
pub open spec fn kept_pred<K: View, T, E>(results: Seq<(K, Result<T, E>)>) -> spec_fn(int) -> bool {
    |i: int| results[i].1 is Ok && !failed_with_key(results, i)
}

/// The successful values at the given positions.
pub open spec fn ok_values_at<K, T, E>(results: Seq<(K, Result<T, E>)>, positions: Seq<int>) -> Seq<T> {
    positions.map_values(|i: int| results[i].1->Ok_0)
}

/// The errors at the given positions.
pub open spec fn errors_at<K, T, E>(results: Seq<(K, Result<T, E>)>, positions: Seq<int>) -> Seq<E> {
    positions.map_values(|i: int| results[i].1->Err_0)
}

/// Separates successes from failures, dropping every success whose key also failed: a package
/// with a file that could not be downloaded is not installed at all, since an incomplete
/// installation is not wanted.
///
/// The first result holds, in order, the successful values for which no entry with the same
/// key failed; the second holds all errors, in order.
pub fn weed_out_download_errors<K: ConflictKey, T, E>(results: Vec<(K, Result<T, E>)>) -> (r: (Vec<T>, Vec<E>))
    ensures
        r.0@ == ok_values_at(results@, indices_where(results@.len(), kept_pred(results@))),
        r.1@ == errors_at(results@, indices_where(results@.len(), failed_pred(results@))),
{
    let ghost orig = results@;
    let (keys, mut slots) = split_entries(results);
    let n = slots.len();
    let mut failed: Vec<usize> = Vec::new();
    let mut i: usize = 0;
    while i < n
        invariant
            n == slots.len(),
            n == orig.len(),
            i <= n,
            forall|q: int| 0 <= q < n ==> slots@[q] == Some(orig[q].1),
            forall|k: int| 0 <= k < failed.len() ==> failed@[k] < n && orig[failed@[k] as int].1 is Err,
            forall|j: int| 0 <= j < i && orig[j].1 is Err ==> exists|k: int| 0 <= k < failed.len() && failed@[k] == j,
        decreases n - i,
    {
        let is_err = match &slots[i] {
            Some(Err(_)) => true,
            _ => false,
        };
        if is_err {
            let ghost old_failed = failed@;
            failed.push(i);
            assert forall|j: int| 0 <= j < i + 1 && orig[j].1 is Err implies exists|k: int| 0 <= k < failed.len() && failed@[k] == j by {
                if j == i {
                    assert(failed@[failed.len() - 1] == j);
                } else {
                    let k = choose|k: int| 0 <= k < old_failed.len() && old_failed[k] == j;
                    assert(failed@[k] == j);
                }
            }
        }
        i = i + 1;
    }
    let mut successes: Vec<T> = Vec::new();
    let mut errors: Vec<E> = Vec::new();
    let mut i: usize = 0;
    while i < n
        invariant
            n == slots.len(),
            n == keys.len(),
            n == orig.len(),
            i <= n,
            forall|q: int| 0 <= q < n ==> keys@[q] == Some(orig[q].0),
            forall|q: int| i <= q < n ==> slots@[q] == Some(orig[q].1),
            forall|k: int| 0 <= k < failed.len() ==> failed@[k] < n && orig[failed@[k] as int].1 is Err,
            forall|j: int| 0 <= j < n && orig[j].1 is Err ==> exists|k: int| 0 <= k < failed.len() && failed@[k] == j,
            successes@ == ok_values_at(orig, indices_where(i as nat, kept_pred(orig))),
            errors@ == errors_at(orig, indices_where(i as nat, failed_pred(orig))),
        decreases n - i,
    {
        let r = take_slot(&mut slots, i).unwrap();
        match r {
            Ok(t) => {
                let mut k: usize = 0;
                let mut seen = false;
                while !seen && k < failed.len()
                    invariant
                        i < n,
                        n == keys.len(),
                        k <= failed.len(),
                        forall|q: int| 0 <= q < n ==> keys@[q] == Some(orig[q].0),
                        forall|x: int| 0 <= x < failed.len() ==> failed@[x] < n,
                        seen ==> k < failed.len() && orig[failed@[k as int] as int].0@ == orig[i as int].0@,
                        forall|x: int| 0 <= x < k ==> orig[failed@[x] as int].0@ != orig[i as int].0@,
                    decreases failed.len() - k + (if seen { 0int } else { 1int }),
                {
                    if slot_key_eq(&keys[failed[k]], &keys[i]) {
                        seen = true;
                    } else {
                        k = k + 1;
                    }
                }
                proof {
                    if seen {
                        let j = failed@[k as int] as int;
                        assert(orig[j].1 is Err && orig[j].0@ == orig[i as int].0@);
                        assert(failed_with_key(orig, i as int));
                    } else {
                        assert(!failed_with_key(orig, i as int)) by {
                            if failed_with_key(orig, i as int) {
                                let j = choose|j: int| 0 <= j < orig.len() && orig[j].1 is Err && #[trigger] orig[j].0@ == orig[i as int].0@;
                                let x = choose|x: int| 0 <= x < failed.len() && failed@[x] == j;
                                assert(orig[failed@[x] as int].0@ != orig[i as int].0@);
                            }
                        }
                    }
                }
                if !seen {
                    successes.push(t);
                }
                assert(successes@ =~= ok_values_at(orig, indices_where((i + 1) as nat, kept_pred(orig))));
                assert(errors@ =~= errors_at(orig, indices_where((i + 1) as nat, failed_pred(orig))));
            }
            Err(e) => {
                errors.push(e);
                assert(successes@ =~= ok_values_at(orig, indices_where((i + 1) as nat, kept_pred(orig))));
                assert(errors@ =~= errors_at(orig, indices_where((i + 1) as nat, failed_pred(orig))));
            }
        }
        i = i + 1;
    }
    (successes, errors)
}

} // verus!
