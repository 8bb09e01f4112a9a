//! Selecting and ordering the entities of a collection.
//!
//! A selection keeps the entities that pass a test, in their order. A sort is
//! stable: entities that the ranking does not tell apart keep their order.

use vstd::prelude::*;

verus! {

/// The entities that a sequence of references points at.
pub open spec fn derefs<T>(s: Seq<&T>) -> Seq<T> {
    s.map_values(|r: &T| *r)
}

/// An executable test on entities of type `T`.
pub trait Test<T> {
    /// The predicate that the test decides.
    spec fn pred(&self) -> spec_fn(T) -> bool;

    fn check(&self, x: &T) -> (r: bool)
        ensures
            r == (self.pred())(*x),
    ;
}

/// An executable strict order on entities of type `T`.
pub trait Ranking<T> {
    /// The order that is decided: `(self.order())(a, b)` says that `a` must
    /// come before `b`.
    spec fn order(&self) -> spec_fn(T, T) -> bool;

    fn is_before(&self, a: &T, b: &T) -> (r: bool)
        ensures
            r == (self.order())(*a, *b),
    ;
}

/// Where `x` goes in the sorted sequence `s`: before the first entity that
/// must come after it, and so behind every entity that ranks the same.
pub open spec fn slot_for<T>(s: Seq<T>, x: T, rank: spec_fn(T, T) -> bool) -> int
    decreases s.len(),
{
    if s.len() == 0 {
        0
    } else if rank(x, s[0]) {
        0
    } else {
        1 + slot_for(s.drop_first(), x, rank)
    }
}

/// `s` with `x` put in at its slot.
pub open spec fn with_inserted<T>(s: Seq<T>, x: T, rank: spec_fn(T, T) -> bool) -> Seq<T> {
    s.insert(slot_for(s, x, rank), x)
}

/// `s` sorted by `rank`, entities of equal rank in the order they had.
pub open spec fn sorted_by<T>(s: Seq<T>, rank: spec_fn(T, T) -> bool) -> Seq<T> {
    s.fold_left(Seq::<T>::empty(), |acc: Seq<T>, x: T| with_inserted(acc, x, rank))
}

/// What `slot_for` finds.
pub proof fn lemma_slot_for<T>(s: Seq<T>, x: T, rank: spec_fn(T, T) -> bool)
    ensures
        0 <= slot_for(s, x, rank) <= s.len(),
        slot_for(s, x, rank) < s.len() ==> rank(x, s[slot_for(s, x, rank)]),
        forall|j: int| 0 <= j < slot_for(s, x, rank) ==> !rank(x, s[j]),
    decreases s.len(),
{
    if s.len() > 0 && !rank(x, s[0]) {
        let rest = s.drop_first();
        lemma_slot_for(rest, x, rank);
        assert forall|j: int| 0 <= j < slot_for(s, x, rank) implies !rank(x, s[j]) by {
            if j > 0 {
                assert(s[j] == rest[j - 1]);
            }
        }
    }
}

/// The first position whose entity must come after `x` is the slot of `x`.
pub proof fn lemma_slot_for_is<T>(s: Seq<T>, x: T, rank: spec_fn(T, T) -> bool, i: int)
    requires
        0 <= i <= s.len(),
        forall|j: int| 0 <= j < i ==> !rank(x, s[j]),
        i < s.len() ==> rank(x, s[i]),
    ensures
        slot_for(s, x, rank) == i,
{
    lemma_slot_for(s, x, rank);
}

/// Sorting keeps the entities: the result is a rearrangement of the input.
pub proof fn lemma_sorted_by_permutes<T>(s: Seq<T>, rank: spec_fn(T, T) -> bool)
    ensures
        sorted_by(s, rank).to_multiset() == s.to_multiset(),
        sorted_by(s, rank).len() == s.len(),
    decreases s.len(),
{
    broadcast use vstd::seq_lib::group_to_multiset_ensures;

    if s.len() == 0 {
        assert(sorted_by(s, rank) =~= s);
    } else {
        let init = s.drop_last();
        let x = s.last();
        let acc = sorted_by(init, rank);
        lemma_sorted_by_permutes(init, rank);
        lemma_slot_for(acc, x, rank);
        let i = slot_for(acc, x, rank);
        assert(sorted_by(s, rank) == acc.insert(i, x));
        acc.to_multiset_ensures();
        assert(acc.insert(i, x).to_multiset() =~= acc.to_multiset().insert(x));
        assert(s == init.push(x));
        init.to_multiset_ensures();
    }
}

/// No entity of `s` must come before an entity that stands before it.
pub open spec fn in_order<T>(s: Seq<T>, rank: spec_fn(T, T) -> bool) -> bool {
    forall|i: int, j: int| 0 <= i < j < s.len() ==> !rank(s[j], s[i])
}

/// The order `rank` puts nothing before itself, and puts `a` before `c`
/// wherever it puts `a` before `b` and `b` before `c`.
pub open spec fn is_strict_order<T>(rank: spec_fn(T, T) -> bool) -> bool {
    &&& forall|a: T| !#[trigger] rank(a, a)
    &&& forall|a: T, b: T, c: T| #[trigger] rank(a, b) && #[trigger] rank(b, c) ==> rank(a, c)
}

/// Sorting by a strict order puts the entities in order.
pub proof fn lemma_sorted_by_is_in_order<T>(s: Seq<T>, rank: spec_fn(T, T) -> bool)
    requires
        is_strict_order(rank),
    ensures
        in_order(sorted_by(s, rank), rank),
    decreases s.len(),
{
    if s.len() > 0 {
        let init = s.drop_last();
        let x = s.last();
        let acc = sorted_by(init, rank);
        lemma_sorted_by_is_in_order(init, rank);
        lemma_slot_for(acc, x, rank);
        let k = slot_for(acc, x, rank);
        let r = acc.insert(k, x);
        assert(sorted_by(s, rank) == r);
        assert forall|i: int, j: int| 0 <= i < j < r.len() implies !rank(r[j], r[i]) by {
            if j < k {
                assert(r[i] == acc[i] && r[j] == acc[j]);
            } else if j == k {
                assert(r[i] == acc[i]);
            } else if i < k {
                assert(r[i] == acc[i] && r[j] == acc[j - 1]);
            } else if i == k {
                assert(r[j] == acc[j - 1]);
                if rank(acc[j - 1], x) {
                    assert(rank(x, acc[k]));
                    assert(rank(acc[j - 1], acc[k]));
                }
            } else {
                assert(r[i] == acc[i - 1] && r[j] == acc[j - 1]);
            }
        }
    }
}

/// Sorting leaves a sequence that is in order as it is.
pub proof fn lemma_sorted_by_keeps_order<T>(s: Seq<T>, rank: spec_fn(T, T) -> bool)
    requires
        in_order(s, rank),
    ensures
        sorted_by(s, rank) == s,
    decreases s.len(),
{
    if s.len() > 0 {
        let init = s.drop_last();
        let x = s.last();
        assert(in_order(init, rank)) by {
            assert forall|i: int, j: int| 0 <= i < j < init.len() implies !rank(init[j], init[i]) by {
                assert(init[i] == s[i] && init[j] == s[j]);
            }
        }
        lemma_sorted_by_keeps_order(init, rank);
        assert forall|j: int| 0 <= j < init.len() implies !rank(x, init[j]) by {
            assert(init[j] == s[j]);
            assert(x == s[s.len() - 1]);
        }
        lemma_slot_for_is(init, x, rank, init.len() as int);
        assert(init.insert(init.len() as int, x) =~= s);
    } else {
        assert(sorted_by(s, rank) =~= s);
    }
}

/// The references of `v` whose entities pass `f`, in the order of `v`.
pub fn pick<'a, T, F: Test<T>>(v: &'a Vec<T>, f: &F) -> (r: Vec<&'a T>)
    ensures
        derefs(r@) == v@.filter(f.pred()),
{
    let mut out: Vec<&'a T> = Vec::new();
    let mut i: usize = 0;
    assert(derefs(out@) =~= v@.take(0).filter(f.pred())) by {
        reveal(Seq::filter);
    }
    while i < v.len()
        invariant
            i <= v.len(),
            derefs(out@) == v@.take(i as int).filter(f.pred()),
        decreases v.len() - i,
    {
        proof {
            assert(v@.take(i + 1) == v@.take(i as int).push(v@[i as int]));
            v@.take(i as int).lemma_filter_push(v@[i as int], f.pred());
        }
        let ghost before = out@;
        if f.check(&v[i]) {
            out.push(&v[i]);
            assert(derefs(out@) =~= derefs(before).push(v@[i as int]));
        }
        i += 1;
    }
    assert(v@.take(v.len() as int) == v@);
    out
}

/// The references of `v` whose entities pass `f`, in the order of `v`.
pub fn pick_again<'a, T, F: Test<T>>(v: &Vec<&'a T>, f: &F) -> (r: Vec<&'a T>)
    ensures
        derefs(r@) == derefs(v@).filter(f.pred()),
{
    let mut out: Vec<&'a T> = Vec::new();
    let mut i: usize = 0;
    let ghost all = derefs(v@);
    assert(derefs(out@) =~= all.take(0).filter(f.pred())) by {
        reveal(Seq::filter);
    }
    while i < v.len()
        invariant
            i <= v.len(),
            all == derefs(v@),
            derefs(out@) == all.take(i as int).filter(f.pred()),
        decreases v.len() - i,
    {
        proof {
            assert(all.take(i + 1) == all.take(i as int).push(all[i as int]));
            all.take(i as int).lemma_filter_push(all[i as int], f.pred());
        }
        let ghost before = out@;
        if f.check(v[i]) {
            out.push(v[i]);
            assert(derefs(out@) =~= derefs(before).push(all[i as int]));
        }
        i += 1;
    }
    assert(all.take(v.len() as int) == all);
    out
}

/// Index at which `x` goes into the sorted vector `v`.
fn find_slot<'a, T, R: Ranking<T>>(v: &Vec<&'a T>, x: &T, rank: &R) -> (i: usize)
    ensures
        i == slot_for(derefs(v@), *x, rank.order()),
        i <= v.len(),
{
    let mut i: usize = 0;
    while i < v.len()
        invariant
            i <= v.len(),
            forall|j: int| 0 <= j < i ==> !(rank.order())(*x, derefs(v@)[j]),
        decreases v.len() - i,
    {
        if rank.is_before(x, v[i]) {
            proof {
                lemma_slot_for_is(derefs(v@), *x, rank.order(), i as int);
            }
            return i;
        }
        i += 1;
    }
    proof {
        lemma_slot_for_is(derefs(v@), *x, rank.order(), i as int);
    }
    i
}

/// Sorts `items` by `rank`; entities of equal rank keep their order.
pub fn stable_sort<'a, T, R: Ranking<T>>(items: Vec<&'a T>, rank: &R) -> (out: Vec<&'a T>)
    ensures
        derefs(out@) == sorted_by(derefs(items@), rank.order()),
{
    let mut out: Vec<&'a T> = Vec::new();
    let ghost all = derefs(items@);
    let mut i: usize = 0;
    assert(derefs(out@) =~= sorted_by(all.take(0), rank.order()));
    while i < items.len()
        invariant
            i <= items.len(),
            all == derefs(items@),
            derefs(out@) == sorted_by(all.take(i as int), rank.order()),
        decreases items.len() - i,
    {
        proof {
            assert(all.take(i + 1).drop_last() == all.take(i as int));
            assert(all.take(i + 1).last() == all[i as int]);
        }
        let x: &'a T = items[i];
        let p = find_slot(&out, x, rank);
        let ghost before = out@;
        out.insert(p, x);
        assert(derefs(out@) =~= derefs(before).insert(p as int, *x));
        i += 1;
    }
    assert(all.take(items.len() as int) == all);
    out
}

} // verus!
