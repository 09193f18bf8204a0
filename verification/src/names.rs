//! A finite map keyed by name, the shape shared by every level of both stores.

use vstd::prelude::*;

verus! {

/// A value that can be stored under a name: it has a mathematical view and
/// can be copied without changing that view.
pub trait Fact: View + Sized {
    fn duplicate(&self) -> (copy: Self)
        ensures
            copy@ == self@,
    ;
}

impl Fact for String {
    fn duplicate(&self) -> (copy: Self) {
        self.clone()
    }
}

/// One named value.
#[derive(Debug, Clone)]
struct Entry<V> {
    key: String,
    value: V,
}

/// Whether `key` names one of the entries of `s`.
spec fn has_key<V>(s: Seq<Entry<V>>, key: Seq<char>) -> bool {
    exists|i: int| 0 <= i < s.len() && (#[trigger] s[i]).key@ == key
}

/// The position of an entry of `s` named `key`.
spec fn position_of<V>(s: Seq<Entry<V>>, key: Seq<char>) -> int {
    choose|i: int| 0 <= i < s.len() && (#[trigger] s[i]).key@ == key
}

/// No two entries of `s` share a name.
spec fn distinct_keys<V>(s: Seq<Entry<V>>) -> bool {
    forall|i: int, j: int|
        0 <= i < j < s.len() ==> (#[trigger] s[i]).key@ != (#[trigger] s[j]).key@
}

/// The map that the entries of `s` stand for.
spec fn entries_map<V: View>(s: Seq<Entry<V>>) -> Map<Seq<char>, V::V> {
    Map::new(|key: Seq<char>| has_key(s, key), |key: Seq<char>| s[position_of(s, key)].value@)
}

/// A finite map from names to values. Names are case-sensitive and no name
/// occurs twice.
#[derive(Debug)]
pub struct NameMap<V> {
    entries: Vec<Entry<V>>,
}

impl<V: View> View for NameMap<V> {
    type V = Map<Seq<char>, V::V>;

    closed spec fn view(&self) -> Map<Seq<char>, V::V> {
        entries_map(self.entries@)
    }
}

/// In a sequence without repeated names, a name is found where it stands.
proof fn lemma_position_of<V>(s: Seq<Entry<V>>, i: int)
    requires
        distinct_keys(s),
        0 <= i < s.len(),
    ensures
        has_key(s, s[i].key@),
        position_of(s, s[i].key@) == i,
{
    let j = position_of(s, s[i].key@);
    assert(0 <= j < s.len() && s[j].key@ == s[i].key@);
}

/// Appending an entry under a new name inserts it into the map.
proof fn lemma_push<V: View>(s: Seq<Entry<V>>, e: Entry<V>)
    requires
        distinct_keys(s),
        !has_key(s, e.key@),
    ensures
        distinct_keys(s.push(e)),
        entries_map(s.push(e)) == entries_map(s).insert(e.key@, e.value@),
{
    let t = s.push(e);
    assert forall|i: int, j: int| 0 <= i < j < t.len() implies (#[trigger] t[i]).key@ != (
    #[trigger] t[j]).key@ by {
        if j == s.len() {
            assert(s[i].key@ == t[i].key@);
        } else {
            assert(s[i] == t[i] && s[j] == t[j]);
        }
    }
    assert forall|key: Seq<char>| has_key(t, key) <==> (has_key(s, key) || key == e.key@) by {
        if has_key(s, key) {
            let i = position_of(s, key);
            assert(t[i].key@ == key);
        }
        if key == e.key@ {
            assert(t[s.len() as int].key@ == key);
        }
        if has_key(t, key) {
            let i = position_of(t, key);
            if i < s.len() {
                assert(s[i].key@ == key);
            }
        }
    }
    assert forall|key: Seq<char>| has_key(t, key) implies #[trigger] entries_map(t)[key]
        == entries_map(s).insert(e.key@, e.value@)[key] by {
        let i = position_of(t, key);
        lemma_position_of(t, i);
        if i < s.len() {
            assert(s[i] == t[i]);
            lemma_position_of(s, i);
        }
    }
    assert(entries_map(t) =~= entries_map(s).insert(e.key@, e.value@));
}

/// Replacing the value of an entry, under the same name, overwrites it in the map.
proof fn lemma_update<V: View>(s: Seq<Entry<V>>, i: int, e: Entry<V>)
    requires
        distinct_keys(s),
        0 <= i < s.len(),
        s[i].key@ == e.key@,
    ensures
        distinct_keys(s.update(i, e)),
        entries_map(s.update(i, e)) == entries_map(s).insert(e.key@, e.value@),
{
    let t = s.update(i, e);
    assert forall|a: int, b: int| 0 <= a < b < t.len() implies (#[trigger] t[a]).key@ != (
    #[trigger] t[b]).key@ by {
        assert(t[a].key@ == s[a].key@ && t[b].key@ == s[b].key@);
    }
    assert forall|key: Seq<char>| has_key(t, key) <==> (has_key(s, key) || key == e.key@) by {
        if has_key(s, key) {
            let j = position_of(s, key);
            assert(t[j].key@ == key);
        }
        if key == e.key@ {
            assert(t[i].key@ == key);
        }
        if has_key(t, key) {
            let j = position_of(t, key);
            assert(s[j].key@ == key);
        }
    }
    assert forall|key: Seq<char>| has_key(t, key) implies #[trigger] entries_map(t)[key]
        == entries_map(s).insert(e.key@, e.value@)[key] by {
        let j = position_of(t, key);
        lemma_position_of(t, j);
        if j != i {
            assert(s[j] == t[j]);
            lemma_position_of(s, j);
        }
    }
    assert(entries_map(t) =~= entries_map(s).insert(e.key@, e.value@));
}

/// Without repeated names the map has as many keys as there are entries.
proof fn lemma_size<V: View>(s: Seq<Entry<V>>)
    requires
        distinct_keys(s),
    ensures
        entries_map(s).dom().finite(),
        entries_map(s).len() == s.len(),
    decreases s.len(),
{
    if s.len() == 0 {
        assert(entries_map(s) =~= Map::<Seq<char>, V::V>::empty());
    } else {
        let p = s.drop_last();
        let e = s.last();
        assert(distinct_keys(p)) by {
            assert forall|i: int, j: int| 0 <= i < j < p.len() implies (#[trigger] p[i]).key@ != (
            #[trigger] p[j]).key@ by {
                assert(p[i] == s[i] && p[j] == s[j]);
            }
        }
        assert(!has_key(p, e.key@)) by {
            if has_key(p, e.key@) {
                let i = position_of(p, e.key@);
                assert(s[i] == p[i]);
                assert(s[i].key@ == s[s.len() - 1].key@);
            }
        }
        lemma_size(p);
        lemma_push(p, e);
        assert(p.push(e) =~= s);
        assert(!entries_map(p).dom().contains(e.key@));
    }
}

/// Two sequences that agree name by name and value by value stand for the same map.
proof fn lemma_same_map<V: View>(s: Seq<Entry<V>>, t: Seq<Entry<V>>)
    requires
        distinct_keys(s),
        s.len() == t.len(),
        forall|i: int|
            0 <= i < s.len() ==> (#[trigger] s[i]).key@ == t[i].key@ && s[i].value@ == t[i].value@,
    ensures
        distinct_keys(t),
        entries_map(t) == entries_map(s),
{
    assert forall|i: int, j: int| 0 <= i < j < t.len() implies (#[trigger] t[i]).key@ != (
    #[trigger] t[j]).key@ by {
        assert(s[i].key@ == t[i].key@ && s[j].key@ == t[j].key@);
    }
    assert forall|key: Seq<char>| has_key(t, key) <==> has_key(s, key) by {
        if has_key(s, key) {
            let i = position_of(s, key);
            assert(s[i].key@ == t[i].key@);
            assert(t[i].key@ == key);
        }
        if has_key(t, key) {
            let i = position_of(t, key);
            assert(s[i].key@ == t[i].key@);
        }
    }
    assert forall|key: Seq<char>| has_key(t, key) implies #[trigger] entries_map(t)[key]
        == entries_map(s)[key] by {
        let i = position_of(t, key);
        lemma_position_of(t, i);
        assert(s[i].key@ == t[i].key@);
        lemma_position_of(s, i);
    }
    assert(entries_map(t) =~= entries_map(s));
}

impl<V> NameMap<V> {
    #[verifier::type_invariant]
    closed spec fn no_name_twice(&self) -> bool {
        distinct_keys(self.entries@)
    }
}

impl<V: Fact> NameMap<V> {
    /// The empty map.
    pub fn new() -> (m: Self)
        ensures
            m@ == Map::<Seq<char>, V::V>::empty(),
    {
        let m = NameMap { entries: Vec::new() };
        assert(m@ =~= Map::<Seq<char>, V::V>::empty());
        m
    }

    /// The number of names.
    pub fn len(&self) -> (n: usize)
        ensures
            self@.dom().finite(),
            n == self@.len(),
    {
        proof {
            use_type_invariant(self);
            lemma_size(self.entries@);
        }
        self.entries.len()
    }

    /// Where `key` stands among the entries, if it does.
    fn find(&self, key: &str) -> (found: Option<usize>)
        ensures
            match found {
                Some(i) => i < self.entries@.len() && self.entries@[i as int].key@ == key@,
                None => !has_key(self.entries@, key@),
            },
    {
        let wanted = key.to_owned();
        let mut i: usize = 0;
        while i < self.entries.len()
            invariant
                i <= self.entries@.len(),
                wanted@ == key@,
                forall|j: int| 0 <= j < i ==> (#[trigger] self.entries@[j]).key@ != key@,
            decreases self.entries@.len() - i,
        {
            if self.entries[i].key == wanted {
                return Some(i);
            }
            i += 1;
        }
        None
    }

    /// Whether `key` is one of the names.
    pub fn contains_key(&self, key: &str) -> (found: bool)
        ensures
            found == self@.contains_key(key@),
    {
        self.find(key).is_some()
    }

    /// The value stored under `key`, if there is one.
    pub fn get(&self, key: &str) -> (value: Option<&V>)
        ensures
            value is Some <==> self@.contains_key(key@),
            value is Some ==> value->0@ == self@[key@],
    {
        match self.find(key) {
            Some(i) => {
                proof {
                    use_type_invariant(self);
                    lemma_position_of(self.entries@, i as int);
                }
                Some(&self.entries[i].value)
            },
            None => None,
        }
    }

    /// The one entry of a map that has exactly one, and nothing otherwise.
    pub fn only(&self) -> (entry: Option<(&String, &V)>)
        ensures
            entry is Some <==> self@.dom().finite() && self@.len() == 1,
            match entry {
                Some((name, value)) => self@.contains_key(name@) && value@ == self@[name@],
                None => true,
            },
    {
        proof {
            use_type_invariant(self);
            lemma_size(self.entries@);
        }
        if self.entries.len() == 1 {
            proof {
                lemma_position_of(self.entries@, 0);
            }
            Some((&self.entries[0].key, &self.entries[0].value))
        } else {
            None
        }
    }

    /// Every name of the map, each once.
    pub fn keys(&self) -> (names: Vec<String>)
        ensures
            names@.len() == self@.len(),
            forall|i: int| 0 <= i < names@.len() ==> self@.contains_key(#[trigger] names@[i]@),
            forall|key: Seq<char>|
                self@.contains_key(key) ==> exists|i: int|
                    0 <= i < names@.len() && #[trigger] names@[i]@ == key,
            forall|i: int, j: int|
                0 <= i < j < names@.len() ==> #[trigger] names@[i]@ != #[trigger] names@[j]@,
    {
        proof {
            use_type_invariant(self);
            lemma_size(self.entries@);
        }
        let mut names: Vec<String> = Vec::new();
        let mut i: usize = 0;
        while i < self.entries.len()
            invariant
                i <= self.entries@.len(),
                names@.len() == i,
                forall|j: int| 0 <= j < i ==> (#[trigger] names@[j])@ == self.entries@[j].key@,
            decreases self.entries@.len() - i,
        {
            names.push(self.entries[i].key.clone());
            i += 1;
        }
        proof {
            let s = self.entries@;
            assert forall|j: int| 0 <= j < names@.len() implies self@.contains_key(
                #[trigger] names@[j]@,
            ) by {
                assert(s[j].key@ == names@[j]@);
            }
            assert forall|key: Seq<char>| self@.contains_key(key) implies exists|j: int|
                0 <= j < names@.len() && #[trigger] names@[j]@ == key by {
                let j = position_of(s, key);
                assert(names@[j]@ == key);
            }
            assert forall|a: int, b: int| 0 <= a < b < names@.len() implies #[trigger] names@[a]@
                != #[trigger] names@[b]@ by {
                assert(s[a].key@ != s[b].key@);
            }
        }
        names
    }

    /// Stores `value` under `key`, in place of any value that was there.
    pub fn insert(&mut self, key: &str, value: V)
        ensures
            final(self)@ == old(self)@.insert(key@, value@),
    {
        proof {
            use_type_invariant(&*self);
        }
        let entry = Entry { key: key.to_owned(), value };
        let found = self.find(key);
        let mut entries: Vec<Entry<V>> = Vec::new();
        core::mem::swap(&mut self.entries, &mut entries);
        match found {
            Some(i) => {
                proof {
                    lemma_update(entries@, i as int, entry);
                }
                entries.set(i, entry);
            },
            None => {
                proof {
                    lemma_push(entries@, entry);
                }
                entries.push(entry);
            },
        }
        core::mem::swap(&mut self.entries, &mut entries);
    }
}

impl<V: Fact> Fact for NameMap<V> {
    fn duplicate(&self) -> (copy: Self) {
        proof {
            use_type_invariant(self);
        }
        let mut entries: Vec<Entry<V>> = Vec::new();
        let mut i: usize = 0;
        while i < self.entries.len()
            invariant
                i <= self.entries@.len(),
                entries@.len() == i,
                forall|j: int|
                    0 <= j < i ==> (#[trigger] self.entries@[j]).key@ == entries@[j].key@
                        && self.entries@[j].value@ == entries@[j].value@,
            decreases self.entries@.len() - i,
        {
            let entry = Entry {
                key: self.entries[i].key.clone(),
                value: self.entries[i].value.duplicate(),
            };
            entries.push(entry);
            i += 1;
        }
        proof {
            lemma_same_map(self.entries@, entries@);
        }
        NameMap { entries }
    }
}

impl<V: Fact> Clone for NameMap<V> {
    fn clone(&self) -> (copy: Self)
        ensures
            copy@ == self@,
    {
        self.duplicate()
    }
}

} // verus!
