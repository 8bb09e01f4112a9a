//! Merging server records into a collection kept by id.
//!
//! A delta is a list of records. A tombstone removes every entity of its id;
//! any other record replaces the first entity of its id in place, or is
//! appended where the id is new.

use crate::models::Entity;
use vstd::prelude::*;

verus! {

/// The test "has another key than `k`".
pub open spec fn other_key<T: Entity>(k: Seq<char>) -> spec_fn(T) -> bool {
    |e: T| e.key() != k
}

/// The test "is no tombstone".
pub open spec fn alive<T: Entity>() -> spec_fn(T) -> bool {
    |e: T| !e.tombstone()
}

/// `s` without the entities of key `k`.
pub open spec fn without_key<T: Entity>(s: Seq<T>, k: Seq<char>) -> Seq<T> {
    s.filter(other_key::<T>(k))
}

/// `s` without its tombstones.
pub open spec fn without_tombstones<T: Entity>(s: Seq<T>) -> Seq<T> {
    s.filter(alive::<T>())
}

/// Index of the first entity of key `k`, or the length of `s` where there is
/// none.
pub open spec fn first_index<T: Entity>(s: Seq<T>, k: Seq<char>) -> int
    decreases s.len(),
{
    if s.len() == 0 {
        0
    } else if s[0].key() == k {
        0
    } else {
        1 + first_index(s.drop_first(), k)
    }
}

/// Whether `s` holds an entity of key `k`.
pub open spec fn holds_key<T: Entity>(s: Seq<T>, k: Seq<char>) -> bool {
    first_index(s, k) < s.len()
}

/// No key occurs twice in `s`.
pub open spec fn distinct_keys<T: Entity>(s: Seq<T>) -> bool {
    forall|i: int, j: int| 0 <= i < j < s.len() ==> s[i].key() != s[j].key()
}

/// The collection after one record of a delta.
pub open spec fn merge_one<T: Entity>(s: Seq<T>, e: T) -> Seq<T> {
    if e.tombstone() {
        without_key(s, e.key())
    } else {
        let i = first_index(s, e.key());
        if i < s.len() {
            s.update(i, e)
        } else {
            s.push(e)
        }
    }
}

/// The collection after all records of a delta, taken in order.
pub open spec fn merge_all<T: Entity>(s: Seq<T>, delta: Seq<T>) -> Seq<T> {
    delta.fold_left(s, |acc: Seq<T>, e: T| merge_one(acc, e))
}

/// What `first_index` finds: the entity there has the key, and none before
/// it has.
pub proof fn lemma_first_index<T: Entity>(s: Seq<T>, k: Seq<char>)
    ensures
        0 <= first_index(s, k) <= s.len(),
        first_index(s, k) < s.len() ==> s[first_index(s, k)].key() == k,
        forall|j: int| 0 <= j < first_index(s, k) ==> s[j].key() != k,
    decreases s.len(),
{
    if s.len() > 0 && s[0].key() != k {
        let rest = s.drop_first();
        lemma_first_index(rest, k);
        assert forall|j: int| 0 <= j < first_index(s, k) implies s[j].key() != k by {
            if j > 0 {
                assert(s[j] == rest[j - 1]);
            }
        }
    }
}

/// An index with the key, before which no entity has it, is the first index.
pub proof fn lemma_first_index_is<T: Entity>(s: Seq<T>, k: Seq<char>, i: int)
    requires
        0 <= i <= s.len(),
        forall|j: int| 0 <= j < i ==> s[j].key() != k,
        i < s.len() ==> s[i].key() == k,
    ensures
        first_index(s, k) == i,
{
    lemma_first_index(s, k);
}

/// Index of the first entity of `store` with id `id`, or the length.
pub fn find_by_id<T: Entity>(store: &Vec<T>, id: &str) -> (r: usize)
    ensures
        r == first_index(store@, id@),
        r <= store.len(),
{
    let mut i: usize = 0;
    while i < store.len()
        invariant
            i <= store.len(),
            forall|j: int| 0 <= j < i ==> store@[j].key() != id@,
        decreases store.len() - i,
    {
        if store[i].id_text().as_str().eq(id) {
            proof {
                lemma_first_index_is(store@, id@, i as int);
            }
            return i;
        }
        i += 1;
    }
    proof {
        lemma_first_index_is(store@, id@, i as int);
    }
    i
}

/// Removes every entity of id `id`.
pub fn remove_by_id<T: Entity>(store: &mut Vec<T>, id: &str)
    ensures
        final(store)@ == without_key(old(store)@, id@),
{
    let mut rest: Vec<T> = Vec::new();
    core::mem::swap(&mut rest, store);
    let ghost all = rest@;
    for e in it: rest
        invariant
            it.seq() == all,
            store@ == without_key(all.take(it.index() as int), id@),
    {
        proof {
            let i = it.index() as int;
            assert(all.take(i + 1) == all.take(i).push(all[i]));
            all.take(i).lemma_filter_push(all[i], other_key::<T>(id@));
        }
        if !e.id_text().as_str().eq(id) {
            store.push(e);
        }
    }
    assert(all.take(all.len() as int) == all);
}

/// Keeps the entities that are no tombstones.
pub fn drop_tombstones<T: Entity>(list: Vec<T>) -> (r: Vec<T>)
    ensures
        r@ == without_tombstones(list@),
{
    let mut out: Vec<T> = Vec::new();
    let ghost all = list@;
    for e in it: list
        invariant
            it.seq() == all,
            out@ == without_tombstones(all.take(it.index() as int)),
    {
        proof {
            let i = it.index() as int;
            assert(all.take(i + 1) == all.take(i).push(all[i]));
            all.take(i).lemma_filter_push(all[i], alive::<T>());
        }
        if !e.is_tombstone() {
            out.push(e);
        }
    }
    assert(all.take(all.len() as int) == all);
    out
}

/// Applies one record of a delta to `store`.
pub fn merge_record<T: Entity>(store: &mut Vec<T>, e: T)
    ensures
        final(store)@ == merge_one(old(store)@, e),
{
    if e.is_tombstone() {
        remove_by_id(store, e.id_text().as_str());
    } else {
        let i = find_by_id(store, e.id_text().as_str());
        if i < store.len() {
            store[i] = e;
        } else {
            store.push(e);
        }
    }
}

/// Applies the records of `delta` to `store`, one after the other.
pub fn merge_delta<T: Entity>(store: &mut Vec<T>, delta: Vec<T>)
    ensures
        final(store)@ == merge_all(old(store)@, delta@),
{
    let ghost before = store@;
    let ghost all = delta@;
    for e in it: delta
        invariant
            it.seq() == all,
            store@ == merge_all(before, all.take(it.index() as int)),
    {
        proof {
            let i = it.index() as int;
            assert(all.take(i + 1).drop_last() == all.take(i));
            assert(all.take(i + 1).last() == all[i]);
        }
        merge_record(store, e);
    }
    assert(all.take(all.len() as int) == all);
}

/// No entity of `s` has the key `k`.
pub open spec fn absent<T: Entity>(s: Seq<T>, k: Seq<char>) -> bool {
    forall|i: int| 0 <= i < s.len() ==> s[i].key() != k
}

/// The first entity of `e`'s key in `s` is `e` itself.
pub open spec fn leads<T: Entity>(s: Seq<T>, e: T) -> bool {
    holds_key(s, e.key()) && s[first_index(s, e.key())] == e
}

/// The record `e` has nothing left to do in `s`: its entity is gone, or is
/// the first of its key.
pub open spec fn settled<T: Entity>(s: Seq<T>, e: T) -> bool {
    if e.tombstone() {
        absent(s, e.key())
    } else {
        leads(s, e)
    }
}

/// Every element of `without_key(s, k)` is an element of `s` with another
/// key, in the order of `s`; where `s` holds no such key, nothing is removed.
pub proof fn lemma_without_key<T: Entity>(s: Seq<T>, k: Seq<char>)
    ensures
        absent(without_key(s, k), k),
        absent(s, k) ==> without_key(s, k) == s,
        forall|q: Seq<char>| absent(s, q) ==> absent(without_key(s, k), q),
    decreases s.len(),
{
    reveal(Seq::filter);
    let f = without_key(s, k);
    if s.len() > 0 {
        let init = s.drop_last();
        lemma_without_key(init, k);
        let g = without_key(init, k);
        assert(f == if s.last().key() != k {
            g.push(s.last())
        } else {
            g
        });
        if absent(s, k) {
            assert(absent(init, k));
            assert(f =~= s);
        }
        assert forall|q: Seq<char>| absent(s, q) implies absent(f, q) by {
            assert(absent(init, q)) by {
                assert forall|i: int| 0 <= i < init.len() implies init[i].key() != q by {
                    assert(init[i] == s[i]);
                }
            }
            assert(s[s.len() - 1].key() != q);
        }
    }
}

/// Removing the entities of key `k` keeps the first entity of any other key.
pub proof fn lemma_without_key_keeps_first<T: Entity>(s: Seq<T>, k: Seq<char>, q: Seq<char>)
    requires
        q != k,
    ensures
        holds_key(without_key(s, k), q) == holds_key(s, q),
        holds_key(s, q) ==> without_key(s, k)[first_index(without_key(s, k), q)]
            == s[first_index(s, q)],
    decreases s.len(),
{
    let f = without_key(s, k);
    lemma_first_index(s, q);
    lemma_first_index(f, q);
    if s.len() > 0 {
        let head = seq![s[0]];
        let rest = s.drop_first();
        assert(s == head + rest);
        Seq::filter_distributes_over_add(head, rest, other_key::<T>(k));
        let g = without_key(rest, k);
        lemma_without_key_keeps_first(rest, k, q);
        lemma_first_index(rest, q);
        lemma_first_index(g, q);
        reveal(Seq::filter);
        assert(head.drop_last() =~= Seq::<T>::empty());
        assert(head.drop_last().filter(other_key::<T>(k)) =~= Seq::<T>::empty());
        if s[0].key() != k {
            assert(head.filter(other_key::<T>(k)) =~= head);
            assert(f =~= head + g);
            assert(f[0] == s[0]);
            assert(f.drop_first() =~= g);
        } else {
            assert(head.filter(other_key::<T>(k)) =~= Seq::<T>::empty());
            assert(f =~= g);
        }
    }
}

/// A record is settled right after it was merged.
pub proof fn lemma_merge_one_settles<T: Entity>(s: Seq<T>, e: T)
    ensures
        settled(merge_one(s, e), e),
{
    let k = e.key();
    if e.tombstone() {
        lemma_without_key(s, k);
    } else {
        lemma_first_index(s, k);
        let i = first_index(s, k);
        let m = merge_one(s, e);
        lemma_first_index_is(m, k, i);
    }
}

/// A settled record stays settled when a record of another key is merged.
pub proof fn lemma_merge_one_keeps_settled<T: Entity>(s: Seq<T>, e: T, f: T)
    requires
        settled(s, e),
        e.key() != f.key(),
    ensures
        settled(merge_one(s, f), e),
{
    let k = e.key();
    let m = merge_one(s, f);
    lemma_first_index(s, k);
    lemma_first_index(s, f.key());
    if f.tombstone() {
        lemma_without_key(s, f.key());
        if !e.tombstone() {
            lemma_without_key_keeps_first(s, f.key(), k);
        }
    } else {
        let j = first_index(s, f.key());
        if e.tombstone() {
            assert(absent(m, k));
        } else {
            let i = first_index(s, k);
            lemma_first_index_is(m, k, i);
        }
    }
}

/// After a delta whose keys are distinct, each of its records is settled.
pub proof fn lemma_merge_all_settles<T: Entity>(s: Seq<T>, delta: Seq<T>)
    requires
        distinct_keys(delta),
    ensures
        forall|i: int| 0 <= i < delta.len() ==> settled(merge_all(s, delta), #[trigger] delta[i]),
    decreases delta.len(),
{
    if delta.len() > 0 {
        let init = delta.drop_last();
        let last = delta.last();
        let mid = merge_all(s, init);
        lemma_merge_all_settles(s, init);
        assert(merge_all(s, delta) == merge_one(mid, last));
        lemma_merge_one_settles(mid, last);
        assert forall|i: int| 0 <= i < delta.len() implies settled(
            merge_all(s, delta),
            #[trigger] delta[i],
        ) by {
            if i < delta.len() - 1 {
                assert(init[i] == delta[i]);
                assert(delta[i].key() != delta[delta.len() - 1].key());
                lemma_merge_one_keeps_settled(mid, delta[i], last);
            }
        }
    }
}

/// A merge leaves no tombstone behind in a collection that held none.
pub proof fn lemma_merge_keeps_alive<T: Entity>(s: Seq<T>, delta: Seq<T>)
    requires
        forall|i: int| 0 <= i < s.len() ==> !(#[trigger] s[i]).tombstone(),
    ensures
        forall|i: int|
            0 <= i < merge_all(s, delta).len() ==> !(#[trigger] merge_all(s, delta)[i]).tombstone(),
    decreases delta.len(),
{
    if delta.len() > 0 {
        let init = delta.drop_last();
        let e = delta.last();
        let mid = merge_all(s, init);
        lemma_merge_keeps_alive(s, init);
        let m = merge_one(mid, e);
        assert(merge_all(s, delta) == m);
        if e.tombstone() {
            assert forall|i: int| 0 <= i < m.len() implies !(#[trigger] m[i]).tombstone() by {
                assert(m.contains(m[i]));
                mid.lemma_filter_contains_rev(other_key::<T>(e.key()), m[i]);
            }
        } else {
            lemma_first_index(mid, e.key());
        }
    }
}

/// No tombstone is left after the tombstones were dropped.
pub proof fn lemma_without_tombstones<T: Entity>(s: Seq<T>)
    ensures
        forall|i: int|
            0 <= i < without_tombstones(s).len() ==> !(#[trigger] without_tombstones(
                s,
            )[i]).tombstone(),
{
    let f = without_tombstones(s);
    assert forall|i: int| 0 <= i < f.len() implies !(#[trigger] f[i]).tombstone() by {
        s.lemma_filter_pred(alive::<T>(), i);
    }
}

} // verus!
