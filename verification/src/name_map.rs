//! A map from names to values.

use vstd::prelude::*;

verus! {

/// A map from names to values, as a list without a repeated name.
pub struct NameMap<V> {
    entries: Vec<(String, V)>,
}

/// Entry `i` has the name `key`.
spec fn named<V>(entries: Seq<(String, V)>, i: int, key: Seq<char>) -> bool {
    0 <= i < entries.len() && entries[i].0@ == key
}

spec fn distinct_names<V>(entries: Seq<(String, V)>) -> bool {
    forall|i: int, j: int|
        0 <= i < j < entries.len() ==> (#[trigger] entries[i]).0@ != (#[trigger] entries[j]).0@
}

spec fn entries_map<V>(entries: Seq<(String, V)>) -> Map<Seq<char>, V> {
    Map::new(
        |k: Seq<char>| exists|i: int| named(entries, i, k),
        |k: Seq<char>| entries[choose|i: int| named(entries, i, k)].1,
    )
}

impl<V> View for NameMap<V> {
    type V = Map<Seq<char>, V>;

    closed spec fn view(&self) -> Map<Seq<char>, V> {
        entries_map(self.entries@)
    }
}

proof fn lemma_entry<V>(entries: Seq<(String, V)>, i: int)
    requires
        distinct_names(entries),
        0 <= i < entries.len(),
    ensures
        entries_map(entries).contains_key(entries[i].0@),
        entries_map(entries)[entries[i].0@] == entries[i].1,
{
    let k = entries[i].0@;
    assert(named(entries, i, k));
    let j = choose|j: int| named(entries, j, k);
    assert(named(entries, j, k));
    assert(i == j);
}

proof fn lemma_count<V>(entries: Seq<(String, V)>)
    requires
        distinct_names(entries),
    ensures
        entries_map(entries).dom().finite(),
        entries_map(entries).dom().len() == entries.len(),
    decreases entries.len(),
{
    let dom = entries_map(entries).dom();
    if entries.len() == 0 {
        assert(dom =~= Set::empty()) by {
            assert forall|k: Seq<char>| !dom.contains(k) by {
                if dom.contains(k) {
                    let i = choose|i: int| named(entries, i, k);
                    assert(named(entries, i, k));
                }
            }
        }
    } else {
        let rest = entries.drop_last();
        let k = entries.last().0@;
        let sub = entries_map(rest).dom();
        lemma_count(rest);
        assert(!sub.contains(k)) by {
            if sub.contains(k) {
                let i = choose|i: int| named(rest, i, k);
                assert(named(rest, i, k));
                assert(entries[i].0@ != entries[entries.len() - 1].0@);
            }
        }
        assert(dom =~= sub.insert(k)) by {
            assert forall|x: Seq<char>| dom.contains(x) <==> sub.insert(k).contains(x) by {
                if dom.contains(x) {
                    let i = choose|i: int| named(entries, i, x);
                    assert(named(entries, i, x));
                    if i < rest.len() {
                        assert(named(rest, i, x));
                    }
                }
                if sub.contains(x) {
                    let i = choose|i: int| named(rest, i, x);
                    assert(named(rest, i, x));
                    assert(named(entries, i, x));
                }
                if x == k {
                    assert(named(entries, entries.len() - 1, x));
                }
            }
        }
    }
}

impl<V> NameMap<V> {
    #[verifier::type_invariant]
    spec fn well_formed(self) -> bool {
        distinct_names(self.entries@)
    }

    /// The empty map.
    pub fn new() -> (r: NameMap<V>)
        ensures
            r@ == Map::<Seq<char>, V>::empty(),
    {
        let r = NameMap { entries: Vec::new() };
        assert(r@ =~= Map::<Seq<char>, V>::empty()) by {
            assert forall|k: Seq<char>| !r@.contains_key(k) by {
                if r@.contains_key(k) {
                    let i = choose|i: int| named(r.entries@, i, k);
                    assert(named(r.entries@, i, k));
                }
            }
        }
        r
    }

    /// The number of names.
    pub fn len(&self) -> (r: usize)
        ensures
            self@.dom().finite(),
            r == self@.dom().len(),
    {
        proof {
            use_type_invariant(self);
            lemma_count(self.entries@);
        }
        self.entries.len()
    }

    pub fn is_empty(&self) -> (r: bool)
        ensures
            r <==> self@ == Map::<Seq<char>, V>::empty(),
    {
        proof {
            use_type_invariant(self);
            lemma_count(self.entries@);
            if self.entries.len() == 0 {
                assert(self@ =~= Map::<Seq<char>, V>::empty());
            } else {
                lemma_entry(self.entries@, 0);
            }
        }
        self.entries.len() == 0
    }

    fn position(&self, key: &String) -> (r: Option<usize>)
        ensures
            r matches Some(i) ==> named(self.entries@, i as int, key@),
            r is None ==> forall|i: int| !named(self.entries@, i, key@),
    {
        let mut i: usize = 0;
        while i < self.entries.len()
            invariant
                i <= self.entries.len(),
                forall|j: int| 0 <= j < i ==> !named(self.entries@, j, key@),
            decreases self.entries.len() - i,
        {
            if self.entries[i].0 == *key {
                return Some(i);
            }
            i = i + 1;
        }
        None
    }

    /// The value of a name.
    pub fn get(&self, key: &String) -> (r: Option<&V>)
        ensures
            r is Some <==> self@.contains_key(key@),
            r matches Some(v) ==> *v == self@[key@],
    {
        match self.position(key) {
            Some(i) => {
                proof {
                    use_type_invariant(self);
                    lemma_entry(self.entries@, i as int);
                }
                Some(&self.entries[i].1)
            },
            None => None,
        }
    }

    pub fn contains_key(&self, key: &String) -> (r: bool)
        ensures
            r <==> self@.contains_key(key@),
    {
        self.get(key).is_some()
    }

    /// Gives a name a value, in place of the value that it had.
    pub fn insert(&mut self, key: String, value: V)
        ensures
            final(self)@ == old(self)@.insert(key@, value),
    {
        let position = self.position(&key);
        let mut taken: NameMap<V> = NameMap::new();
        std::mem::swap(self, &mut taken);
        proof {
            use_type_invariant(&taken);
        }
        let ghost before = taken.entries@;
        let NameMap { mut entries } = taken;
        match position {
            Some(i) => {
                proof {
                    lemma_replaced(before, i as int, key, value);
                }
                entries.set(i, (key, value));
            },
            None => {
                proof {
                    lemma_pushed(before, key, value);
                }
                entries.push((key, value));
            },
        }
        *self = NameMap { entries };
    }

    /// The names, each once.
    pub fn keys(&self) -> (r: Vec<String>)
        ensures
            forall|i: int| 0 <= i < r.len() ==> self@.contains_key(#[trigger] r[i]@),
            forall|k: Seq<char>|
                self@.contains_key(k) ==> exists|i: int| 0 <= i < r.len() && #[trigger] r[i]@ == k,
            forall|i: int, j: int|
                0 <= i < j < r.len() ==> (#[trigger] r[i])@ != (#[trigger] r[j])@,
    {
        proof {
            use_type_invariant(self);
        }
        let mut r: Vec<String> = Vec::new();
        let mut i: usize = 0;
        while i < self.entries.len()
            invariant
                i <= self.entries.len(),
                r.len() == i,
                forall|j: int| 0 <= j < i ==> (#[trigger] r[j])@ == self.entries[j].0@,
            decreases self.entries.len() - i,
        {
            r.push(self.entries[i].0.clone());
            i = i + 1;
        }
        proof {
            assert forall|j: int| 0 <= j < r.len() implies self@.contains_key(#[trigger] r[j]@) by {
                lemma_entry(self.entries@, j);
            }
            assert forall|k: Seq<char>| self@.contains_key(k) implies exists|j: int|
                0 <= j < r.len() && #[trigger] r[j]@ == k by {
                let j = choose|j: int| named(self.entries@, j, k);
                assert(named(self.entries@, j, k));
                assert(r[j]@ == k);
            }
            assert forall|a: int, b: int| 0 <= a < b < r.len() implies (#[trigger] r[a])@ != (
            #[trigger] r[b])@ by {
                assert(self.entries[a].0@ != self.entries[b].0@);
            }
        }
        r
    }
}

proof fn lemma_replaced<V>(before: Seq<(String, V)>, i: int, key: String, value: V)
    requires
        distinct_names(before),
        named(before, i, key@),
    ensures
        distinct_names(before.update(i, (key, value))),
        entries_map(before.update(i, (key, value))) == entries_map(before).insert(key@, value),
{
    let after = before.update(i, (key, value));
    assert forall|a: int, b: int| 0 <= a < b < after.len() implies (#[trigger] after[a]).0@ != (
    #[trigger] after[b]).0@ by {
        assert(before[a].0@ != before[b].0@);
    }
    let m = entries_map(before).insert(key@, value);
    assert forall|k: Seq<char>| entries_map(after).contains_key(k) <==> m.contains_key(k) by {
        if entries_map(after).contains_key(k) {
            let j = choose|j: int| named(after, j, k);
            assert(named(after, j, k));
            assert(named(before, j, k));
        }
        if entries_map(before).contains_key(k) {
            let j = choose|j: int| named(before, j, k);
            assert(named(before, j, k));
            assert(named(after, j, k));
        }
        if k == key@ {
            assert(named(after, i, k));
        }
    }
    assert forall|k: Seq<char>| m.contains_key(k) implies entries_map(after)[k] == m[k] by {
        if k == key@ {
            lemma_entry(after, i);
        } else {
            let j = choose|j: int| named(before, j, k);
            assert(named(before, j, k));
            lemma_entry(before, j);
            lemma_entry(after, j);
        }
    }
    assert(entries_map(after) =~= m);
}

proof fn lemma_pushed<V>(before: Seq<(String, V)>, key: String, value: V)
    requires
        distinct_names(before),
        forall|i: int| !named(before, i, key@),
    ensures
        distinct_names(before.push((key, value))),
        entries_map(before.push((key, value))) == entries_map(before).insert(key@, value),
{
    let after = before.push((key, value));
    assert forall|a: int, b: int| 0 <= a < b < after.len() implies (#[trigger] after[a]).0@ != (
    #[trigger] after[b]).0@ by {
        if b < before.len() {
            assert(before[a].0@ != before[b].0@);
        } else {
            assert(!named(before, a, key@));
        }
    }
    let m = entries_map(before).insert(key@, value);
    assert forall|k: Seq<char>| entries_map(after).contains_key(k) <==> m.contains_key(k) by {
        if entries_map(after).contains_key(k) {
            let j = choose|j: int| named(after, j, k);
            assert(named(after, j, k));
            if j < before.len() {
                assert(named(before, j, k));
            }
        }
        if entries_map(before).contains_key(k) {
            let j = choose|j: int| named(before, j, k);
            assert(named(before, j, k));
            assert(named(after, j, k));
        }
        if k == key@ {
            assert(named(after, before.len() as int, k));
        }
    }
    assert forall|k: Seq<char>| m.contains_key(k) implies entries_map(after)[k] == m[k] by {
        if k == key@ {
            lemma_entry(after, before.len() as int);
        } else {
            let j = choose|j: int| named(before, j, k);
            assert(named(before, j, k));
            lemma_entry(before, j);
            lemma_entry(after, j);
        }
    }
    assert(entries_map(after) =~= m);
}

} // verus!
