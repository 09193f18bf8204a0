//! Sets of labels: values under names, a later value replacing an earlier one.

use crate::names::NameMap;
use vstd::prelude::*;

verus! {

/// A set of labels.
#[derive(Debug, Clone)]
pub struct LabelSet(NameMap<String>);

impl View for LabelSet {
    type V = Map<Seq<char>, Seq<char>>;

    closed spec fn view(&self) -> Map<Seq<char>, Seq<char>> {
        self.0@
    }
}

impl Default for LabelSet {
    fn default() -> (labels: Self)
        ensures
            labels@ == Map::<Seq<char>, Seq<char>>::empty(),
    {
        LabelSet(NameMap::new())
    }
}

impl LabelSet {
    /// The set without labels.
    pub fn new() -> (labels: Self)
        ensures
            labels@ == Map::<Seq<char>, Seq<char>>::empty(),
    {
        LabelSet(NameMap::new())
    }

    /// The set with `value` under `name`, in place of what was there.
    pub fn insert(self, name: &str, value: &str) -> (labels: Self)
        ensures
            labels@ == self@.insert(name@, value@),
    {
        let mut labels = self;
        labels.0.insert(name, value.to_owned());
        labels
    }

    /// The value under `name`, if there is one.
    pub fn get(&self, name: &str) -> (value: Option<&String>)
        ensures
            value is Some <==> self@.contains_key(name@),
            value is Some ==> value->0@ == self@[name@],
    {
        self.0.get(name)
    }

    /// The number of labels.
    pub fn len(&self) -> (n: usize)
        ensures
            self@.dom().finite(),
            n == self@.len(),
    {
        self.0.len()
    }

    /// Copies every label into `dst`, over what `dst` has under the same name.
    pub fn copy_into(&self, dst: &mut LabelSet)
        ensures
            final(dst)@ == old(dst)@.union_prefer_right(self@),
    {
        let names = self.0.keys();
        let mut i: usize = 0;
        while i < names.len()
            invariant
                i <= names@.len(),
                forall|j: int| 0 <= j < names@.len() ==> self@.contains_key(#[trigger] names@[j]@),
                forall|key: Seq<char>|
                    self@.contains_key(key) ==> exists|j: int|
                        0 <= j < names@.len() && #[trigger] names@[j]@ == key,
                forall|key: Seq<char>|
                    #![trigger dst@.contains_key(key)]
                    #![trigger dst@[key]]
                    {
                        let copied = exists|j: int| 0 <= j < i && #[trigger] names@[j]@ == key;
                        &&& dst@.contains_key(key) == (old(dst)@.contains_key(key) || copied)
                        &&& dst@.contains_key(key) ==> dst@[key] == if copied {
                            self@[key]
                        } else {
                            old(dst)@[key]
                        }
                    },
            decreases names@.len() - i,
        {
            let name = names[i].as_str();
            let ghost before = dst@;
            if let Some(value) = self.0.get(name) {
                dst.0.insert(name, value.clone());
            }
            proof {
                assert forall|key: Seq<char>|
                    #![trigger dst@.contains_key(key)]
                    #![trigger dst@[key]]
                    {
                        let copied = exists|j: int| 0 <= j < i + 1 && #[trigger] names@[j]@ == key;
                        &&& dst@.contains_key(key) == (old(dst)@.contains_key(key) || copied)
                        &&& dst@.contains_key(key) ==> dst@[key] == if copied {
                            self@[key]
                        } else {
                            old(dst)@[key]
                        }
                    } by {
                    let earlier = exists|j: int| 0 <= j < i && #[trigger] names@[j]@ == key;
                    let copied = exists|j: int| 0 <= j < i + 1 && #[trigger] names@[j]@ == key;
                    assert(before.contains_key(key) == (old(dst)@.contains_key(key) || earlier));
                    if key == names@[i as int]@ {
                        assert(copied);
                    } else {
                        if copied {
                            let j = choose|j: int| 0 <= j < i + 1 && #[trigger] names@[j]@ == key;
                            assert(0 <= j < i && names@[j]@ == key);
                            assert(earlier);
                        }
                        if earlier {
                            let j = choose|j: int| 0 <= j < i && #[trigger] names@[j]@ == key;
                            assert(0 <= j < i + 1 && names@[j]@ == key);
                        }
                    }
                }
            }
            i += 1;
        }
        proof {
            assert forall|key: Seq<char>| self@.contains_key(key) == (exists|j: int|
                0 <= j < names@.len() && #[trigger] names@[j]@ == key) by {
                if exists|j: int| 0 <= j < names@.len() && #[trigger] names@[j]@ == key {
                    let j = choose|j: int| 0 <= j < names@.len() && #[trigger] names@[j]@ == key;
                    assert(self@.contains_key(names@[j]@));
                }
            }
            assert(dst@ =~= old(dst)@.union_prefer_right(self@));
        }
    }
}

} // verus!
