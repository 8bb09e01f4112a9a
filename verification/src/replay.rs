//! Merging a delta a second time.
//!
//! A delta may name an entity more than once. Merging it again changes
//! nothing as long as no record names as live an entity that an earlier
//! record of the delta names as deleted: such an entity would leave its place
//! and come back at the end.

use crate::merge::{
    absent, first_index, holds_key, leads, lemma_first_index, lemma_first_index_is,
    lemma_merge_one_keeps_settled, lemma_merge_one_settles, lemma_without_key, merge_all,
    merge_one, other_key, settled, without_key,
};
use crate::models::Entity;
use vstd::prelude::*;

verus! {

/// No record of `delta` names as live an entity that an earlier record names
/// as deleted.
pub open spec fn lives_first<T: Entity>(delta: Seq<T>) -> bool {
    forall|i: int, j: int|
        0 <= i < j < delta.len() && (#[trigger] delta[i]).key() == (#[trigger] delta[j]).key()
            && delta[i].tombstone() ==> delta[j].tombstone()
}

/// A delta that names no entity twice names none as live after naming it as
/// deleted.
pub proof fn lemma_distinct_lives_first<T: Entity>(delta: Seq<T>)
    requires
        crate::merge::distinct_keys(delta),
    ensures
        lives_first(delta),
{
}

/// Whether a record of `delta` names the entity `k` as deleted.
pub open spec fn doomed<T: Entity>(delta: Seq<T>, k: Seq<char>) -> bool {
    exists|i: int| 0 <= i < delta.len() && (#[trigger] delta[i]).key() == k && delta[i].tombstone()
}

/// The test "a record of `delta` names the entity as deleted".
pub open spec fn doomed_in<T: Entity>(delta: Seq<T>) -> spec_fn(Seq<char>) -> bool {
    |k: Seq<char>| doomed(delta, k)
}

/// Index of the last record of key `k`, or -1 where there is none.
pub open spec fn last_index<T: Entity>(delta: Seq<T>, k: Seq<char>) -> int
    decreases delta.len(),
{
    if delta.len() == 0 {
        -1
    } else if delta.last().key() == k {
        delta.len() - 1
    } else {
        last_index(delta.drop_last(), k)
    }
}

/// What `last_index` finds: the record there has the key, and none after it
/// has.
pub proof fn lemma_last_index<T: Entity>(delta: Seq<T>, k: Seq<char>)
    ensures
        -1 <= last_index(delta, k) < delta.len(),
        last_index(delta, k) >= 0 ==> delta[last_index(delta, k)].key() == k,
        forall|j: int| last_index(delta, k) < j < delta.len() ==> delta[j].key() != k,
        last_index(delta, k) == -1 <==> absent(delta, k),
    decreases delta.len(),
{
    if delta.len() > 0 && delta.last().key() != k {
        let init = delta.drop_last();
        lemma_last_index(init, k);
        assert forall|j: int| last_index(delta, k) < j < delta.len() implies delta[j].key() != k by {
            if j < init.len() {
                assert(init[j] == delta[j]);
            }
        }
        if last_index(delta, k) >= 0 {
            assert(init[last_index(init, k)] == delta[last_index(init, k)]);
        }
        if absent(delta, k) {
            assert forall|j: int| 0 <= j < init.len() implies init[j].key() != k by {
                assert(init[j] == delta[j]);
            }
        }
    }
}

/// After a delta, the last record of each key is settled.
pub proof fn lemma_last_is_settled<T: Entity>(s: Seq<T>, delta: Seq<T>, k: Seq<char>)
    requires
        last_index(delta, k) >= 0,
    ensures
        settled(merge_all(s, delta), delta[last_index(delta, k)]),
    decreases delta.len(),
{
    lemma_last_index(delta, k);
    let init = delta.drop_last();
    let last = delta.last();
    let mid = merge_all(s, init);
    assert(merge_all(s, delta) == merge_one(mid, last));
    if last.key() == k {
        lemma_merge_one_settles(mid, last);
    } else {
        lemma_last_index(init, k);
        lemma_last_is_settled(s, init, k);
        assert(init[last_index(init, k)] == delta[last_index(delta, k)]);
        lemma_merge_one_keeps_settled(mid, delta[last_index(delta, k)], last);
    }
}

/// Where `u` holds the key, the first entity of the key in `u + v` is the
/// first in `u`; where `u` does not, it is the first in `v`.
pub proof fn lemma_first_index_of_join<T: Entity>(u: Seq<T>, v: Seq<T>, k: Seq<char>)
    ensures
        holds_key(u, k) ==> first_index(u + v, k) == first_index(u, k),
        absent(u, k) ==> first_index(u + v, k) == u.len() + first_index(v, k),
{
    lemma_first_index(u, k);
    lemma_first_index(v, k);
    if holds_key(u, k) {
        lemma_first_index_is(u + v, k, first_index(u, k));
    }
    if absent(u, k) {
        lemma_first_index_is(u + v, k, u.len() + first_index(v, k));
    }
}

/// A record of a key that `u` does not hold is merged into `v` alone.
pub proof fn lemma_merge_one_behind<T: Entity>(u: Seq<T>, v: Seq<T>, e: T)
    requires
        absent(u, e.key()),
    ensures
        merge_one(u + v, e) == u + merge_one(v, e),
{
    let k = e.key();
    if e.tombstone() {
        Seq::filter_distributes_over_add(u, v, other_key::<T>(k));
        lemma_without_key(u, k);
    } else {
        lemma_first_index_of_join(u, v, k);
        lemma_first_index(v, k);
        assert(merge_one(u + v, e) =~= u + merge_one(v, e));
    }
}

/// A live record of a key that `u` holds is merged into `u` alone.
pub proof fn lemma_merge_one_in_front<T: Entity>(u: Seq<T>, v: Seq<T>, e: T)
    requires
        holds_key(u, e.key()),
        !e.tombstone(),
    ensures
        merge_one(u + v, e) == merge_one(u, e) + v,
{
    lemma_first_index_of_join(u, v, e.key());
    lemma_first_index(u, e.key());
    assert(merge_one(u + v, e) =~= merge_one(u, e) + v);
}

/// The collection `u` after the records of `delta` whose key passes `skip`
/// were left out and the others merged.
pub open spec fn kept_part<T: Entity>(u: Seq<T>, delta: Seq<T>, skip: spec_fn(Seq<char>) -> bool) -> Seq<T>
    decreases delta.len(),
{
    if delta.len() == 0 {
        u
    } else if skip(delta.last().key()) {
        kept_part(u, delta.drop_last(), skip)
    } else {
        merge_one(kept_part(u, delta.drop_last(), skip), delta.last())
    }
}

/// The collection `v` after the records of `delta` whose key passes `take`
/// were merged and the others left out.
pub open spec fn taken_part<T: Entity>(v: Seq<T>, delta: Seq<T>, take: spec_fn(Seq<char>) -> bool) -> Seq<T>
    decreases delta.len(),
{
    if delta.len() == 0 {
        v
    } else if take(delta.last().key()) {
        merge_one(taken_part(v, delta.drop_last(), take), delta.last())
    } else {
        taken_part(v, delta.drop_last(), take)
    }
}

/// Every key of `s` passes `test`.
pub open spec fn keys_pass<T: Entity>(s: Seq<T>, test: spec_fn(Seq<char>) -> bool) -> bool {
    forall|i: int| 0 <= i < s.len() ==> test(#[trigger] s[i].key())
}

/// No key of `s` passes `test`.
pub open spec fn keys_fail<T: Entity>(s: Seq<T>, test: spec_fn(Seq<char>) -> bool) -> bool {
    forall|i: int| 0 <= i < s.len() ==> !test(#[trigger] s[i].key())
}

/// The two collections hold the same keys at the same places.
pub open spec fn same_keys<T: Entity>(a: Seq<T>, b: Seq<T>) -> bool {
    &&& a.len() == b.len()
    &&& forall|i: int| 0 <= i < a.len() ==> (#[trigger] a[i]).key() == b[i].key()
}

/// Collections with the same keys at the same places find a key at the same
/// place.
pub proof fn lemma_same_keys_find<T: Entity>(a: Seq<T>, b: Seq<T>, k: Seq<char>)
    requires
        same_keys(a, b),
    ensures
        first_index(a, k) == first_index(b, k),
        holds_key(a, k) == holds_key(b, k),
{
    lemma_first_index(a, k);
    lemma_first_index(b, k);
    let i = first_index(a, k);
    let j = first_index(b, k);
    if i < j {
        assert(a[i].key() == b[i].key());
    } else if j < i {
        assert(a[j].key() == b[j].key());
    }
}

/// What the records that are not left out need of `u`: each is live, and
/// `u` holds its key.
pub open spec fn kept_fit<T: Entity>(u: Seq<T>, delta: Seq<T>, skip: spec_fn(Seq<char>) -> bool) -> bool {
    forall|j: int|
        0 <= j < delta.len() && !skip((#[trigger] delta[j]).key()) ==> !delta[j].tombstone()
            && holds_key(u, delta[j].key())
}

/// Whether the entity at place `p` is as it was in `u`, or is the first of
/// its key and is the last record that `delta` has of that key.
pub open spec fn tracks<T: Entity>(
    w: Seq<T>,
    u: Seq<T>,
    delta: Seq<T>,
    skip: spec_fn(Seq<char>) -> bool,
    p: int,
) -> bool {
    w[p] == u[p] || (p == first_index(u, u[p].key()) && !skip(u[p].key()) && last_index(
        delta,
        u[p].key(),
    ) >= 0 && w[p] == delta[last_index(delta, u[p].key())])
}

/// The kept part holds the keys of `u` at their places, and each entity is
/// as it was or is the last record of its key.
pub proof fn lemma_kept_part_tracks<T: Entity>(u: Seq<T>, delta: Seq<T>, skip: spec_fn(Seq<char>) -> bool)
    requires
        kept_fit(u, delta, skip),
    ensures
        same_keys(kept_part(u, delta, skip), u),
        forall|p: int| 0 <= p < u.len() ==> #[trigger] tracks(kept_part(u, delta, skip), u, delta, skip, p),
    decreases delta.len(),
{
    if delta.len() > 0 {
        let init = delta.drop_last();
        let e = delta.last();
        let k = e.key();
        let w = kept_part(u, init, skip);
        let w2 = kept_part(u, delta, skip);
        assert forall|j: int| 0 <= j < init.len() && !skip((#[trigger] init[j]).key()) implies !init[j].tombstone()
            && holds_key(u, init[j].key()) by {
            assert(init[j] == delta[j]);
        }
        lemma_kept_part_tracks(u, init, skip);
        assert(delta[delta.len() - 1] == e);
        if skip(k) {
            assert forall|p: int| 0 <= p < u.len() implies #[trigger] tracks(w2, u, delta, skip, p) by {
                assert(tracks(w, u, init, skip, p));
                if w[p] != u[p] {
                    lemma_last_index(init, u[p].key());
                    assert(init[last_index(init, u[p].key())] == delta[last_index(init, u[p].key())]);
                }
            }
        } else {
            lemma_same_keys_find(w, u, k);
            lemma_first_index(w, k);
            lemma_first_index(u, k);
            let i = first_index(w, k);
            assert(w2 == w.update(i, e));
            assert forall|p: int| 0 <= p < u.len() implies #[trigger] tracks(w2, u, delta, skip, p) by {
                assert(tracks(w, u, init, skip, p));
                assert(w[p].key() == u[p].key());
                if p != i && w[p] != u[p] {
                    lemma_last_index(init, u[p].key());
                    assert(init[last_index(init, u[p].key())] == delta[last_index(init, u[p].key())]);
                }
            }
            assert forall|p: int| 0 <= p < w2.len() implies (#[trigger] w2[p]).key() == u[p].key() by {
                assert(w[p].key() == u[p].key());
            }
        }
    }
}

/// The kept part of a collection that leads with the last record of each key
/// is the collection.
pub proof fn lemma_kept_part_is_fixed<T: Entity>(u: Seq<T>, delta: Seq<T>, skip: spec_fn(Seq<char>) -> bool)
    requires
        kept_fit(u, delta, skip),
        forall|k: Seq<char>|
            !skip(k) && last_index(delta, k) >= 0 ==> leads(u, #[trigger] delta[last_index(delta, k)]),
    ensures
        kept_part(u, delta, skip) == u,
{
    let w = kept_part(u, delta, skip);
    lemma_kept_part_tracks(u, delta, skip);
    assert forall|p: int| 0 <= p < u.len() implies w[p] == u[p] by {
        assert(tracks(w, u, delta, skip, p));
        if w[p] != u[p] {
            let k = u[p].key();
            lemma_last_index(delta, k);
            assert(leads(u, delta[last_index(delta, k)]));
        }
    }
    assert(w =~= u);
}

/// Merging a record brings in no key but its own.
pub proof fn lemma_merge_one_keys<T: Entity>(s: Seq<T>, e: T, test: spec_fn(Seq<char>) -> bool)
    requires
        keys_pass(s, test),
        test(e.key()),
    ensures
        keys_pass(merge_one(s, e), test),
{
    let m = merge_one(s, e);
    lemma_first_index(s, e.key());
    if e.tombstone() {
        assert forall|i: int| 0 <= i < m.len() implies test(#[trigger] m[i].key()) by {
            assert(m.contains(m[i]));
            s.lemma_filter_contains_rev(other_key::<T>(e.key()), m[i]);
            let j = choose|j: int| 0 <= j < s.len() && s[j] == m[i];
            assert(test(s[j].key()));
        }
    } else {
        assert forall|i: int| 0 <= i < m.len() implies test(#[trigger] m[i].key()) by {
            if i < s.len() && i != first_index(s, e.key()) {
                assert(test(s[i].key()));
            }
        }
    }
}

/// A delta is merged into the part in front and the part behind apart: the
/// records whose key passes `test` go behind, the others in front.
pub proof fn lemma_merge_all_splits<T: Entity>(
    u: Seq<T>,
    v: Seq<T>,
    delta: Seq<T>,
    test: spec_fn(Seq<char>) -> bool,
)
    requires
        keys_fail(u, test),
        keys_pass(v, test),
        kept_fit(u, delta, test),
    ensures
        merge_all(u + v, delta) == kept_part(u, delta, test) + taken_part(v, delta, test),
        keys_pass(taken_part(v, delta, test), test),
    decreases delta.len(),
{
    if delta.len() > 0 {
        let init = delta.drop_last();
        let e = delta.last();
        let k = e.key();
        assert forall|j: int| 0 <= j < init.len() && !test((#[trigger] init[j]).key()) implies !init[j].tombstone()
            && holds_key(u, init[j].key()) by {
            assert(init[j] == delta[j]);
        }
        lemma_merge_all_splits(u, v, init, test);
        lemma_kept_part_tracks(u, init, test);
        let front = kept_part(u, init, test);
        let back = taken_part(v, init, test);
        assert(merge_all(u + v, delta) == merge_one(merge_all(u + v, init), e));
        assert(delta[delta.len() - 1] == e);
        if test(k) {
            assert forall|i: int| 0 <= i < front.len() implies front[i].key() != k by {
                assert(front[i].key() == u[i].key());
                assert(!test(u[i].key()));
            }
            lemma_merge_one_behind(front, back, e);
            lemma_merge_one_keys(back, e, test);
        } else {
            lemma_same_keys_find(front, u, k);
            lemma_merge_one_in_front(front, back, e);
        }
    } else {
        assert(merge_all(u + v, delta) == u + v);
    }
}

/// The part behind holds no key that neither it nor the delta held.
pub proof fn lemma_taken_part_keys<T: Entity>(
    v: Seq<T>,
    delta: Seq<T>,
    test: spec_fn(Seq<char>) -> bool,
    k: Seq<char>,
)
    requires
        absent(v, k),
        absent(delta, k),
    ensures
        absent(taken_part(v, delta, test), k),
    decreases delta.len(),
{
    if delta.len() > 0 {
        let init = delta.drop_last();
        let e = delta.last();
        assert forall|j: int| 0 <= j < init.len() implies init[j].key() != k by {
            assert(init[j] == delta[j]);
        }
        lemma_taken_part_keys(v, init, test, k);
        assert(delta[delta.len() - 1] == e);
        if test(e.key()) {
            let t = taken_part(v, init, test);
            lemma_merge_one_keys(t, e, |q: Seq<char>| q != k);
        }
    }
}

/// In the part behind, the last record of each key that goes there is
/// settled.
pub proof fn lemma_taken_part_settles<T: Entity>(
    v: Seq<T>,
    delta: Seq<T>,
    test: spec_fn(Seq<char>) -> bool,
    k: Seq<char>,
)
    requires
        test(k),
        last_index(delta, k) >= 0,
    ensures
        settled(taken_part(v, delta, test), delta[last_index(delta, k)]),
    decreases delta.len(),
{
    lemma_last_index(delta, k);
    let init = delta.drop_last();
    let last = delta.last();
    let mid = taken_part(v, init, test);
    if last.key() == k {
        lemma_merge_one_settles(mid, last);
    } else {
        lemma_last_index(init, k);
        lemma_taken_part_settles(v, init, test, k);
        assert(init[last_index(init, k)] == delta[last_index(delta, k)]);
        if test(last.key()) {
            lemma_merge_one_keeps_settled(mid, delta[last_index(delta, k)], last);
        }
    }
}

/// The last record of an entity that the delta names as deleted is a
/// tombstone.
pub proof fn lemma_doomed_ends_deleted<T: Entity>(delta: Seq<T>, k: Seq<char>)
    requires
        lives_first(delta),
        doomed(delta, k),
    ensures
        last_index(delta, k) >= 0,
        delta[last_index(delta, k)].tombstone(),
{
    lemma_last_index(delta, k);
    let i = choose|i: int| 0 <= i < delta.len() && (#[trigger] delta[i]).key() == k && delta[i].tombstone();
    let j = last_index(delta, k);
    assert(j >= i);
    if j > i {
        assert(delta[i].key() == delta[j].key());
    }
}

/// **Merging twice.** Merging a delta twice gives what merging it once
/// gives, for every delta in which no record names as live an entity that an
/// earlier record names as deleted.
pub proof fn lemma_merge_twice<T: Entity>(s: Seq<T>, delta: Seq<T>)
    requires
        lives_first(delta),
    ensures
        merge_all(merge_all(s, delta), delta) == merge_all(s, delta),
{
    let r = merge_all(s, delta);
    let test = doomed_in(delta);
    let none = Seq::<T>::empty();
    assert forall|i: int| 0 <= i < r.len() implies !test(#[trigger] r[i].key()) by {
        let k = r[i].key();
        if doomed(delta, k) {
            lemma_doomed_ends_deleted(delta, k);
            lemma_last_index(delta, k);
            lemma_last_is_settled(s, delta, k);
            assert(absent(r, k));
            assert(r[i].key() != k);
        }
    }
    assert forall|j: int| 0 <= j < delta.len() && !test((#[trigger] delta[j]).key()) implies !delta[j].tombstone()
        && holds_key(r, delta[j].key()) by {
        let k = delta[j].key();
        lemma_last_index(delta, k);
        lemma_last_is_settled(s, delta, k);
        assert(!delta[last_index(delta, k)].tombstone());
    }
    assert forall|k: Seq<char>| !test(k) && last_index(delta, k) >= 0 implies leads(
        r,
        #[trigger] delta[last_index(delta, k)],
    ) by {
        lemma_last_index(delta, k);
        lemma_last_is_settled(s, delta, k);
        assert(!delta[last_index(delta, k)].tombstone());
    }
    lemma_merge_all_splits(r, none, delta, test);
    lemma_kept_part_is_fixed(r, delta, test);
    let back = taken_part(none, delta, test);
    if back.len() > 0 {
        let k = back[0].key();
        assert(test(k));
        lemma_last_index(delta, k);
        if absent(delta, k) {
            lemma_taken_part_keys(none, delta, test, k);
        } else {
            lemma_doomed_ends_deleted(delta, k);
            lemma_taken_part_settles(none, delta, test, k);
        }
    }
    assert(r + none =~= r);
    assert(r + back =~= r);
}

/// The collection `v` after the records of `delta` that pass `pick` were
/// merged, in order, and the others left out.
pub open spec fn merged_where<T: Entity>(v: Seq<T>, delta: Seq<T>, pick: spec_fn(T) -> bool) -> Seq<T>
    decreases delta.len(),
{
    if delta.len() == 0 {
        v
    } else if pick(delta.last()) {
        merge_one(merged_where(v, delta.drop_last(), pick), delta.last())
    } else {
        merged_where(v, delta.drop_last(), pick)
    }
}

/// Merging the records that pass a test is merging the delta of those
/// records.
pub proof fn lemma_merged_where_is_filtered<T: Entity>(v: Seq<T>, delta: Seq<T>, pick: spec_fn(T) -> bool)
    ensures
        merged_where(v, delta, pick) == merge_all(v, delta.filter(pick)),
    decreases delta.len(),
{
    reveal(Seq::filter);
    if delta.len() > 0 {
        let init = delta.drop_last();
        lemma_merged_where_is_filtered(v, init, pick);
        let g = init.filter(pick);
        if pick(delta.last()) {
            assert(delta.filter(pick) == g.push(delta.last()));
            assert(g.push(delta.last()).drop_last() == g);
        } else {
            assert(delta.filter(pick) == g);
        }
    } else {
        assert(delta.filter(pick) =~= Seq::<T>::empty());
    }
}

/// A part of a delta that names no entity as live after naming it as deleted
/// names none so either.
pub proof fn lemma_filter_keeps_lives_first<T: Entity>(delta: Seq<T>, pick: spec_fn(T) -> bool)
    requires
        lives_first(delta),
    ensures
        lives_first(delta.filter(pick)),
    decreases delta.len(),
{
    reveal(Seq::filter);
    if delta.len() > 0 {
        let init = delta.drop_last();
        let last = delta.last();
        assert(lives_first(init)) by {
            assert forall|i: int, j: int|
                0 <= i < j < init.len() && (#[trigger] init[i]).key() == (#[trigger] init[j]).key()
                    && init[i].tombstone() implies init[j].tombstone() by {
                assert(init[i] == delta[i] && init[j] == delta[j]);
            }
        }
        lemma_filter_keeps_lives_first(init, pick);
        let g = init.filter(pick);
        let f = delta.filter(pick);
        if pick(last) {
            assert(f == g.push(last));
            assert forall|i: int, j: int|
                0 <= i < j < f.len() && (#[trigger] f[i]).key() == (#[trigger] f[j]).key()
                    && f[i].tombstone() implies f[j].tombstone() by {
                if j == f.len() - 1 {
                    assert(g.contains(g[i]));
                    init.lemma_filter_contains_rev(pick, g[i]);
                    let at = choose|at: int| 0 <= at < init.len() && init[at] == g[i];
                    assert(delta[at] == g[i]);
                    assert(delta[delta.len() - 1] == last);
                } else {
                    assert(g[i] == f[i] && g[j] == f[j]);
                }
            }
        } else {
            assert(f == g);
        }
    }
}

/// **Merging a part twice.** Merging the records of a delta that pass a test
/// twice gives what merging them once gives, for every delta in which no
/// record names as live an entity that an earlier record names as deleted.
pub proof fn lemma_merged_where_twice<T: Entity>(v: Seq<T>, delta: Seq<T>, pick: spec_fn(T) -> bool)
    requires
        lives_first(delta),
    ensures
        merged_where(merged_where(v, delta, pick), delta, pick) == merged_where(v, delta, pick),
{
    lemma_merged_where_is_filtered(v, delta, pick);
    lemma_merged_where_is_filtered(merged_where(v, delta, pick), delta, pick);
    lemma_filter_keeps_lives_first(delta, pick);
    lemma_merge_twice(v, delta.filter(pick));
}

} // verus!
