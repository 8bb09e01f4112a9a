//! Small maps and sets keyed by text.
//!
//! Both keep their keys in a vector in which no key occurs twice, and are
//! seen from outside as a `Map` or a `Set` over character sequences.

use vstd::prelude::*;

verus! {

/// No key occurs twice among the entries.
pub open spec fn keys_distinct<T>(s: Seq<(String, T)>) -> bool {
    forall|i: int, j: int| 0 <= i < j < s.len() ==> s[i].0@ != s[j].0@
}

/// Whether some entry has the key `k`.
pub open spec fn has_key<T>(s: Seq<(String, T)>, k: Seq<char>) -> bool {
    exists|i: int| 0 <= i < s.len() && #[trigger] s[i].0@ == k
}

/// The index of an entry with key `k`.
pub open spec fn slot_of<T>(s: Seq<(String, T)>, k: Seq<char>) -> int {
    choose|i: int| 0 <= i < s.len() && #[trigger] s[i].0@ == k
}

/// The map that a list of entries with distinct keys stands for.
pub open spec fn assoc<T>(s: Seq<(String, T)>) -> Map<Seq<char>, T> {
    Map::new(|k: Seq<char>| has_key(s, k), |k: Seq<char>| s[slot_of(s, k)].1)
}

/// In a list with distinct keys, the map holds each entry under its key.
pub proof fn lemma_assoc_entry<T>(s: Seq<(String, T)>, i: int)
    requires
        keys_distinct(s),
        0 <= i < s.len(),
    ensures
        assoc(s).contains_key(s[i].0@),
        assoc(s)[s[i].0@] == s[i].1,
        slot_of(s, s[i].0@) == i,
{
    let k = s[i].0@;
    assert(has_key(s, k));
    let j = slot_of(s, k);
    assert(0 <= j < s.len() && s[j].0@ == k);
    if j < i {
        assert(s[j].0@ != s[i].0@);
    } else if i < j {
        assert(s[i].0@ != s[j].0@);
    }
}

/// A map from text keys to values of `T`.
pub struct StrMap<T> {
    entries: Vec<(String, T)>,
}

impl<T> View for StrMap<T> {
    type V = Map<Seq<char>, T>;

    closed spec fn view(&self) -> Map<Seq<char>, T> {
        assoc(self.entries@)
    }
}

/// Index of the entry of `entries` with key `k`, or the length where there is
/// none.
fn find_slot<T>(entries: &Vec<(String, T)>, k: &str) -> (r: usize)
    ensures
        r <= entries.len(),
        r < entries.len() ==> entries@[r as int].0@ == k@,
        r == entries.len() ==> !has_key(entries@, k@),
{
    let mut i: usize = 0;
    while i < entries.len()
        invariant
            i <= entries.len(),
            forall|j: int| 0 <= j < i ==> entries@[j].0@ != k@,
        decreases entries.len() - i,
    {
        if entries[i].0.as_str().eq(k) {
            return i;
        }
        i += 1;
    }
    i
}

impl<T> StrMap<T> {
    #[verifier::type_invariant]
    spec fn well_formed(self) -> bool {
        keys_distinct(self.entries@)
    }

    /// The empty map.
    pub fn new() -> (m: Self)
        ensures
            m@ == Map::<Seq<char>, T>::empty(),
    {
        let m = StrMap { entries: Vec::new() };
        assert(m@ =~= Map::<Seq<char>, T>::empty());
        m
    }

    /// How many keys the map holds.
    pub fn len(&self) -> (n: usize)
        ensures
            n == self@.dom().len(),
            self@.dom().finite(),
    {
        proof {
            use_type_invariant(self);
            lemma_assoc_len(self.entries@);
        }
        self.entries.len()
    }

    /// Whether the map holds `k`.
    pub fn contains_key(&self, k: &str) -> (r: bool)
        ensures
            r == self@.contains_key(k@),
    {
        let i = find_slot(&self.entries, k);
        i < self.entries.len()
    }

    /// The value kept under `k`.
    pub fn get(&self, k: &str) -> (r: Option<&T>)
        ensures
            match r {
                Some(v) => self@.contains_key(k@) && *v == self@[k@],
                None => !self@.contains_key(k@),
            },
    {
        let i = find_slot(&self.entries, k);
        if i < self.entries.len() {
            proof {
                use_type_invariant(self);
                lemma_assoc_entry(self.entries@, i as int);
            }
            Some(&self.entries[i].1)
        } else {
            None
        }
    }

    /// Puts `v` under `k`, in place of what was there.
    pub fn insert(&mut self, k: String, v: T)
        ensures
            final(self)@ == old(self)@.insert(k@, v),
    {
        proof {
            use_type_invariant(&*self);
        }
        let mut es: Vec<(String, T)> = Vec::new();
        core::mem::swap(&mut es, &mut self.entries);
        let ghost before = es@;
        let i = find_slot(&es, k.as_str());
        let ghost key = k@;
        if i < es.len() {
            es[i] = (k, v);
        } else {
            es.push((k, v));
        }
        proof {
            let after = es@;
            let slot = i as int;
            assert(keys_distinct(after)) by {
                assert forall|a: int, b: int| 0 <= a < b < after.len() implies after[a].0@
                    != after[b].0@ by {
                    if a != slot && b != slot {
                        assert(after[a] == before[a] && after[b] == before[b]);
                    } else if a == slot {
                        assert(after[b] == before[b]);
                    } else {
                        assert(after[a] == before[a]);
                    }
                }
            }
            lemma_assoc_entry(after, slot);
            assert forall|q: Seq<char>| #[trigger]
                assoc(after).contains_key(q) == assoc(before).insert(key, v).contains_key(
                    q,
                ) by {
                if q != key {
                    if has_key(before, q) {
                        let j = slot_of(before, q);
                        assert(after[j].0@ == q);
                    }
                    if has_key(after, q) {
                        let j = slot_of(after, q);
                        assert(before[j].0@ == q);
                    }
                }
            }
            assert forall|q: Seq<char>| assoc(after).contains_key(q) implies #[trigger] assoc(
                after,
            )[q] == assoc(before).insert(key, v)[q] by {
                if q != key {
                    let j = slot_of(after, q);
                    assert(before[j] == after[j]);
                    lemma_assoc_entry(before, j);
                    lemma_assoc_entry(after, j);
                }
            }
            assert(assoc(after) =~= assoc(before).insert(key, v));
        }
        self.entries = es;
    }

    /// Takes out what is kept under `k`.
    pub fn remove(&mut self, k: &str) -> (r: Option<T>)
        ensures
            final(self)@ == old(self)@.remove(k@),
            r == (if old(self)@.contains_key(k@) {
                Some(old(self)@[k@])
            } else {
                None
            }),
    {
        proof {
            use_type_invariant(&*self);
        }
        let mut es: Vec<(String, T)> = Vec::new();
        core::mem::swap(&mut es, &mut self.entries);
        let ghost before = es@;
        let i = find_slot(&es, k);
        let r = if i < es.len() {
            proof {
                lemma_assoc_entry(before, i as int);
            }
            let (_, v) = es.remove(i);
            Some(v)
        } else {
            None
        };
        proof {
            let after = es@;
            let slot = i as int;
            assert(keys_distinct(after)) by {
                assert forall|a: int, b: int| 0 <= a < b < after.len() implies after[a].0@
                    != after[b].0@ by {
                    let a0 = if a < slot { a } else { a + 1 };
                    let b0 = if b < slot { b } else { b + 1 };
                    if slot < before.len() {
                        assert(after[a] == before[a0] && after[b] == before[b0]);
                    }
                }
            }
            assert forall|q: Seq<char>| #[trigger]
                assoc(after).contains_key(q) == assoc(before).remove(k@).contains_key(q) by {
                if has_key(after, q) {
                    let j = slot_of(after, q);
                    let j0 = if j < slot { j } else { j + 1 };
                    if slot < before.len() {
                        assert(before[j0].0@ == q);
                        assert(j0 != slot);
                        assert(before[slot].0@ != before[j0].0@);
                    } else {
                        assert(before[j].0@ == q);
                    }
                }
                if q != k@ && has_key(before, q) {
                    let j = slot_of(before, q);
                    if slot < before.len() {
                        let j1 = if j < slot { j } else { j - 1 };
                        assert(after[j1].0@ == q);
                    } else {
                        assert(after[j].0@ == q);
                    }
                }
            }
            assert forall|q: Seq<char>| assoc(after).contains_key(q) implies #[trigger] assoc(
                after,
            )[q] == assoc(before).remove(k@)[q] by {
                let j = slot_of(after, q);
                let j0 = if slot < before.len() && j >= slot { j + 1 } else { j };
                assert(before[j0] == after[j]);
                lemma_assoc_entry(before, j0);
                lemma_assoc_entry(after, j);
            }
            assert(assoc(after) =~= assoc(before).remove(k@));
        }
        self.entries = es;
        r
    }

    /// Takes every entry out of the map. The entries come under distinct
    /// keys and stand for the map as it was.
    pub fn take_all(&mut self) -> (r: Vec<(String, T)>)
        ensures
            final(self)@ == Map::<Seq<char>, T>::empty(),
            keys_distinct(r@),
            assoc(r@) == old(self)@,
    {
        proof {
            use_type_invariant(&*self);
        }
        let mut es: Vec<(String, T)> = Vec::new();
        core::mem::swap(&mut es, &mut self.entries);
        assert(self@ =~= Map::<Seq<char>, T>::empty());
        es
    }

    /// Empties the map.
    pub fn clear(&mut self)
        ensures
            final(self)@ == Map::<Seq<char>, T>::empty(),
    {
        self.entries = Vec::new();
        assert(self@ =~= Map::<Seq<char>, T>::empty());
    }
}

/// A list with distinct keys stands for a finite map with as many keys as
/// the list has entries.
pub proof fn lemma_assoc_len<T>(s: Seq<(String, T)>)
    requires
        keys_distinct(s),
    ensures
        assoc(s).dom().finite(),
        assoc(s).dom().len() == s.len(),
    decreases s.len(),
{
    if s.len() == 0 {
        assert(assoc(s).dom() =~= Set::<Seq<char>>::empty());
    } else {
        let init = s.drop_last();
        let k = s.last().0@;
        lemma_assoc_len(init);
        assert forall|q: Seq<char>| #[trigger]
            assoc(s).dom().contains(q) == assoc(init).dom().insert(k).contains(q) by {
            if has_key(s, q) {
                let j = slot_of(s, q);
                if j < init.len() {
                    assert(init[j].0@ == q);
                }
            }
            if has_key(init, q) {
                let j = slot_of(init, q);
                assert(s[j].0@ == q);
            }
            if q == k {
                assert(s[s.len() - 1].0@ == q);
            }
        }
        assert(assoc(s).dom() =~= assoc(init).dom().insert(k));
        assert(!assoc(init).dom().contains(k)) by {
            if has_key(init, k) {
                let j = slot_of(init, k);
                assert(s[j].0@ == s[s.len() - 1].0@);
            }
        }
    }
}

/// A set of texts.
pub struct StrSet {
    members: StrMap<()>,
}

impl View for StrSet {
    type V = Set<Seq<char>>;

    closed spec fn view(&self) -> Set<Seq<char>> {
        self.members@.dom()
    }
}

impl StrSet {
    /// The empty set.
    pub fn new() -> (s: Self)
        ensures
            s@ == Set::<Seq<char>>::empty(),
    {
        let s = StrSet { members: StrMap::new() };
        assert(s@ =~= Set::<Seq<char>>::empty());
        s
    }

    /// How many texts the set holds.
    pub fn len(&self) -> (n: usize)
        ensures
            n == self@.len(),
            self@.finite(),
    {
        self.members.len()
    }

    /// Whether `k` is in the set.
    pub fn contains(&self, k: &str) -> (r: bool)
        ensures
            r == self@.contains(k@),
    {
        self.members.contains_key(k)
    }

    /// Adds `k`; says whether it was new.
    pub fn insert(&mut self, k: String) -> (fresh: bool)
        ensures
            final(self)@ == old(self)@.insert(k@),
            fresh == !old(self)@.contains(k@),
    {
        let fresh = !self.members.contains_key(k.as_str());
        self.members.insert(k, ());
        assert(self@ =~= old(self)@.insert(k@));
        fresh
    }

    /// Takes `k` out; says whether it was there.
    pub fn remove(&mut self, k: &str) -> (was_there: bool)
        ensures
            final(self)@ == old(self)@.remove(k@),
            was_there == old(self)@.contains(k@),
    {
        let r = self.members.remove(k);
        assert(self@ =~= old(self)@.remove(k@));
        r.is_some()
    }

    /// Empties the set.
    pub fn clear(&mut self)
        ensures
            final(self)@ == Set::<Seq<char>>::empty(),
    {
        self.members.clear();
        assert(self@ =~= Set::<Seq<char>>::empty());
    }
}

} // verus!
