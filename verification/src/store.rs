//! A name-keyed store of records, as the state file keeps tools, fonts and
//! settings: each name occurs at most once, and the store reads as a map
//! from names to records. The records are held in a vector rather than a
//! `HashMap<String, _>`: with string keys the map's specification proves
//! too little to state what reading after writing gives, while the
//! vector's contents, under the invariant that names are unique, let every
//! operation state exactly which map it leaves.

use vstd::prelude::*;
use crate::text::str_eq;

verus! {

/// A record stored under a name.
pub struct Named<V> {
    pub name: String,
    pub value: V,
}

/// Whether no name occurs twice in `s`.
pub open spec fn unique_names<V>(s: Seq<Named<V>>) -> bool {
    forall|i: int, j: int|
        0 <= i < s.len() && 0 <= j < s.len() && i != j ==> #[trigger] s[i].name@ != #[trigger] s[j].name@
}

/// Whether some entry of `s` is named `k`.
pub open spec fn has_name<V>(s: Seq<Named<V>>, k: Seq<char>) -> bool {
    exists|i: int| 0 <= i < s.len() && #[trigger] s[i].name@ == k
}

/// The map from names to records that `s` describes.
pub open spec fn map_of<V>(s: Seq<Named<V>>) -> Map<Seq<char>, V> {
    Map::new(
        |k: Seq<char>| has_name(s, k),
        |k: Seq<char>| s[choose|i: int| 0 <= i < s.len() && #[trigger] s[i].name@ == k].value,
    )
}

/// A name-keyed store in which each name occurs once.
pub struct Store<V> {
    entries: Vec<Named<V>>,
}

proof fn lemma_map_of_at<V>(s: Seq<Named<V>>, i: int)
    requires
        unique_names(s),
        0 <= i < s.len(),
    ensures
        map_of(s).contains_key(s[i].name@),
        map_of(s)[s[i].name@] == s[i].value,
{
    let k = s[i].name@;
    assert(has_name(s, k));
    let c = choose|j: int| 0 <= j < s.len() && #[trigger] s[j].name@ == k;
    assert(c == i);
}

proof fn lemma_map_of_push<V>(s: Seq<Named<V>>, e: Named<V>)
    requires
        unique_names(s),
        !has_name(s, e.name@),
    ensures
        unique_names(s.push(e)),
        map_of(s.push(e)) == map_of(s).insert(e.name@, e.value),
{
    let t = s.push(e);
    assert forall|i: int, j: int|
        0 <= i < t.len() && 0 <= j < t.len() && i != j implies #[trigger] t[i].name@ != #[trigger] t[j].name@ by {
        if i < s.len() && j < s.len() {
            assert(t[i] == s[i] && t[j] == s[j]);
        } else if i < s.len() {
            assert(t[i] == s[i]);
        } else {
            assert(t[j] == s[j]);
        }
    }
    let m1 = map_of(t);
    let m2 = map_of(s).insert(e.name@, e.value);
    assert forall|k: Seq<char>| m1.contains_key(k) <==> m2.contains_key(k) by {
        if has_name(t, k) {
            let i = choose|i: int| 0 <= i < t.len() && #[trigger] t[i].name@ == k;
            if i < s.len() {
                assert(s[i] == t[i]);
            }
        }
        if has_name(s, k) {
            let i = choose|i: int| 0 <= i < s.len() && #[trigger] s[i].name@ == k;
            assert(t[i] == s[i]);
        }
        if k == e.name@ {
            assert(t[s.len() as int] == e);
        }
    }
    assert forall|k: Seq<char>| #[trigger] m1.contains_key(k) implies m1[k] == m2[k] by {
        let i = choose|i: int| 0 <= i < t.len() && #[trigger] t[i].name@ == k;
        lemma_map_of_at(t, i);
        if i < s.len() {
            assert(s[i] == t[i]);
            lemma_map_of_at(s, i);
        }
    }
    assert(m1 =~= m2);
}

proof fn lemma_map_of_update<V>(s: Seq<Named<V>>, i: int, e: Named<V>)
    requires
        unique_names(s),
        0 <= i < s.len(),
        s[i].name@ == e.name@,
    ensures
        unique_names(s.update(i, e)),
        map_of(s.update(i, e)) == map_of(s).insert(e.name@, e.value),
{
    let t = s.update(i, e);
    assert forall|a: int, b: int|
        0 <= a < t.len() && 0 <= b < t.len() && a != b implies #[trigger] t[a].name@ != #[trigger] t[b].name@ by {
        assert(t[a].name@ == s[a].name@);
        assert(t[b].name@ == s[b].name@);
    }
    let m1 = map_of(t);
    let m2 = map_of(s).insert(e.name@, e.value);
    assert forall|k: Seq<char>| m1.contains_key(k) <==> m2.contains_key(k) by {
        if has_name(t, k) {
            let j = choose|j: int| 0 <= j < t.len() && #[trigger] t[j].name@ == k;
            assert(s[j].name@ == k);
        }
        if has_name(s, k) {
            let j = choose|j: int| 0 <= j < s.len() && #[trigger] s[j].name@ == k;
            assert(t[j].name@ == k);
        }
        if k == e.name@ {
            assert(t[i].name@ == k);
        }
    }
    assert forall|k: Seq<char>| #[trigger] m1.contains_key(k) implies m1[k] == m2[k] by {
        let j = choose|j: int| 0 <= j < t.len() && #[trigger] t[j].name@ == k;
        lemma_map_of_at(t, j);
        if j != i {
            assert(s[j] == t[j]);
            lemma_map_of_at(s, j);
        }
    }
    assert(m1 =~= m2);
}

proof fn lemma_map_of_remove<V>(s: Seq<Named<V>>, i: int)
    requires
        unique_names(s),
        0 <= i < s.len(),
    ensures
        unique_names(s.remove(i)),
        map_of(s.remove(i)) == map_of(s).remove(s[i].name@),
{
    let t = s.remove(i);
    let k0 = s[i].name@;
    assert forall|a: int| 0 <= a < t.len() implies #[trigger] t[a] == s[if a < i { a } else { a + 1 }] by {}
    assert forall|a: int, b: int|
        0 <= a < t.len() && 0 <= b < t.len() && a != b implies #[trigger] t[a].name@ != #[trigger] t[b].name@ by {
        assert(t[a] == s[if a < i { a } else { a + 1 }]);
        assert(t[b] == s[if b < i { b } else { b + 1 }]);
    }
    let m1 = map_of(t);
    let m2 = map_of(s).remove(k0);
    assert forall|k: Seq<char>| m1.contains_key(k) <==> m2.contains_key(k) by {
        if has_name(t, k) {
            let j = choose|j: int| 0 <= j < t.len() && #[trigger] t[j].name@ == k;
            let sj = if j < i { j } else { j + 1 };
            assert(t[j] == s[sj]);
            assert(s[sj].name@ == k);
            assert(sj != i);
        }
        if has_name(s, k) && k != k0 {
            let j = choose|j: int| 0 <= j < s.len() && #[trigger] s[j].name@ == k;
            assert(j != i);
            let tj = if j < i { j } else { j - 1 };
            assert(t[tj] == s[j]);
        }
    }
    assert forall|k: Seq<char>| #[trigger] m1.contains_key(k) implies m1[k] == m2[k] by {
        let j = choose|j: int| 0 <= j < t.len() && #[trigger] t[j].name@ == k;
        lemma_map_of_at(t, j);
        let sj = if j < i { j } else { j + 1 };
        assert(t[j] == s[sj]);
        lemma_map_of_at(s, sj);
    }
    assert(m1 =~= m2);
}

impl<V> Store<V> {
    #[verifier::type_invariant]
    closed spec fn inv(self) -> bool {
        unique_names(self.entries@)
    }

    /// The store read as a map from names to records.
    pub closed spec fn view(&self) -> Map<Seq<char>, V> {
        map_of(self.entries@)
    }

    /// An empty store.
    pub fn new() -> (r: Self)
        ensures
            r.view() == Map::<Seq<char>, V>::empty(),
    {
        let r = Store { entries: Vec::new() };
        assert(r.view() =~= Map::<Seq<char>, V>::empty());
        r
    }

    /// The position of the entry named `name`.
    fn position(&self, name: &str) -> (r: Option<usize>)
        ensures
            match r {
                Some(i) => i < self.entries@.len() && self.entries@[i as int].name@ == name@,
                None => !has_name(self.entries@, name@),
            },
    {
        let mut i: usize = 0;
        while i < self.entries.len()
            invariant
                i <= self.entries@.len(),
                forall|j: int| 0 <= j < i ==> #[trigger] self.entries@[j].name@ != name@,
            decreases self.entries@.len() - i,
        {
            if str_eq(self.entries[i].name.as_str(), name) {
                return Some(i);
            }
            i = i + 1;
        }
        None
    }

    /// Whether a record is stored under `name`.
    pub fn contains(&self, name: &str) -> (r: bool)
        ensures
            r == self.view().contains_key(name@),
    {
        self.position(name).is_some()
    }

    /// The record stored under `name`.
    pub fn get(&self, name: &str) -> (r: Option<&V>)
        ensures
            self.view().contains_key(name@) ==> r == Some(&self.view()[name@]),
            !self.view().contains_key(name@) ==> r is None,
    {
        proof {
            use_type_invariant(self);
        }
        match self.position(name) {
            Some(i) => {
                proof {
                    lemma_map_of_at(self.entries@, i as int);
                }
                Some(&self.entries[i].value)
            },
            None => None,
        }
    }

    /// Stores `value` under `name`, replacing any record stored there.
    pub fn insert(&mut self, name: String, value: V)
        ensures
            final(self).view() == old(self).view().insert(name@, value),
    {
        proof {
            use_type_invariant(&*self);
        }
        let pos = self.position(name.as_str());
        let mut entries: Vec<Named<V>> = Vec::new();
        std::mem::swap(&mut entries, &mut self.entries);
        let ghost old_entries = entries@;
        let e = Named { name, value };
        match pos {
            Some(i) => {
                proof {
                    lemma_map_of_update(old_entries, i as int, e);
                }
                entries.set(i, e);
            },
            None => {
                proof {
                    lemma_map_of_push(old_entries, e);
                }
                entries.push(e);
            },
        }
        self.entries = entries;
    }

    /// Removes the record stored under `name`; tells whether there was one.
    pub fn remove(&mut self, name: &str) -> (r: bool)
        ensures
            r == old(self).view().contains_key(name@),
            final(self).view() == old(self).view().remove(name@),
    {
        proof {
            use_type_invariant(&*self);
        }
        match self.position(name) {
            Some(i) => {
                let mut entries: Vec<Named<V>> = Vec::new();
        std::mem::swap(&mut entries, &mut self.entries);
                let ghost old_entries = entries@;
                proof {
                    lemma_map_of_remove(old_entries, i as int);
                }
                entries.remove(i);
                self.entries = entries;
                true
            },
            None => {
                assert(self.view().remove(name@) =~= self.view());
                false
            },
        }
    }

    /// Removes every record.
    pub fn clear(&mut self)
        ensures
            final(self).view() == Map::<Seq<char>, V>::empty(),
    {
        self.entries = Vec::new();
        assert(self.view() =~= Map::<Seq<char>, V>::empty());
    }

    /// The number of records.
    pub fn len(&self) -> (r: usize)
        ensures
            r as nat == self.view().dom().len(),
    {
        proof {
            use_type_invariant(self);
            lemma_dom_len(self.entries@);
        }
        self.entries.len()
    }

    /// The names under which records are stored, in storage order.
    pub fn names(&self) -> (r: Vec<String>)
        ensures
            r@.len() == self.entry_seq().len(),
            forall|j: int| 0 <= j < r@.len() ==> #[trigger] r@[j]@ == self.entry_seq()[j].name@,
            r@.len() == self.view().dom().len(),
            forall|i: int| 0 <= i < r@.len() ==> self.view().contains_key(#[trigger] r@[i]@),
            forall|k: Seq<char>| #[trigger] self.view().contains_key(k) ==> exists|i: int|
                0 <= i < r@.len() && r@[i]@ == k,
    {
        proof {
            use_type_invariant(self);
            lemma_dom_len(self.entries@);
        }
        let mut r: Vec<String> = Vec::new();
        let mut i: usize = 0;
        while i < self.entries.len()
            invariant
                i <= self.entries@.len(),
                r@.len() == i,
                forall|j: int| 0 <= j < i ==> #[trigger] r@[j]@ == self.entries@[j].name@,
            decreases self.entries@.len() - i,
        {
            r.push(self.entries[i].name.clone());
            i = i + 1;
        }
        proof {
            assert forall|j: int| 0 <= j < r@.len() implies self.view().contains_key(#[trigger] r@[j]@) by {
                assert(has_name(self.entries@, self.entries@[j].name@));
            }
            assert forall|k: Seq<char>| #[trigger] self.view().contains_key(k) implies exists|i: int|
                0 <= i < r@.len() && r@[i]@ == k by {
                let j = choose|j: int| 0 <= j < self.entries@.len() && #[trigger] self.entries@[j].name@ == k;
                assert(r@[j]@ == k);
            }
        }
        r
    }

    /// The stored records in storage order.
    pub closed spec fn entry_seq(&self) -> Seq<Named<V>> {
        self.entries@
    }

    /// The stored records, in storage order, with their names.
    pub fn entries(&self) -> (r: &Vec<Named<V>>)
        ensures
            r@ == self.entry_seq(),
            r@.len() == self.view().dom().len(),
            forall|i: int| 0 <= i < r@.len() ==> #[trigger] self.view().contains_key(r@[i].name@)
                && self.view()[r@[i].name@] == r@[i].value,
            unique_names(r@),
    {
        proof {
            use_type_invariant(self);
            lemma_dom_len(self.entries@);
            assert forall|i: int| 0 <= i < self.entries@.len() implies #[trigger] self.view().contains_key(
                self.entries@[i].name@,
            ) && self.view()[self.entries@[i].name@] == self.entries@[i].value by {
                lemma_map_of_at(self.entries@, i);
            }
        }
        &self.entries
    }
}

proof fn lemma_dom_len<V>(s: Seq<Named<V>>)
    requires
        unique_names(s),
    ensures
        map_of(s).dom().finite(),
        map_of(s).dom().len() == s.len(),
    decreases s.len(),
{
    if s.len() == 0 {
        assert(map_of(s).dom() =~= Set::<Seq<char>>::empty());
    } else {
        let p = s.drop_last();
        assert forall|i: int, j: int|
            0 <= i < p.len() && 0 <= j < p.len() && i != j implies #[trigger] p[i].name@ != #[trigger] p[j].name@ by {
            assert(p[i] == s[i] && p[j] == s[j]);
        }
        lemma_dom_len(p);
        assert(!has_name(p, s.last().name@)) by {
            if has_name(p, s.last().name@) {
                let i = choose|i: int| 0 <= i < p.len() && #[trigger] p[i].name@ == s.last().name@;
                assert(p[i] == s[i]);
            }
        }
        lemma_map_of_push(p, s.last());
        assert(p.push(s.last()) =~= s);
    }
}

/// Reading a name after storing a record under it gives that record back,
/// and storing under one name leaves every other name's record as it was.
pub proof fn law_store_read_after_write<V>(m: Map<Seq<char>, V>, k: Seq<char>, v: V, other: Seq<char>)
    requires
        other != k,
    ensures
        m.insert(k, v).contains_key(k),
        m.insert(k, v)[k] == v,
        m.insert(k, v).contains_key(other) == m.contains_key(other),
        m.contains_key(other) ==> m.insert(k, v)[other] == m[other],
        !m.remove(k).contains_key(k),
{
}

} // verus!
