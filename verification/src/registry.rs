use crate::slot::Slot;
use std::any::TypeId;
use vstd::prelude::*;

verus! {

/// Whether some entry of `entries` has the key `key`.
pub open spec fn has_key(entries: Seq<(TypeId, Slot)>, key: TypeId) -> bool {
    exists|i: int| 0 <= i < entries.len() && (#[trigger] entries[i]).0 == key
}

/// The place of an entry with the key `key`.
pub open spec fn place_of(entries: Seq<(TypeId, Slot)>, key: TypeId) -> int {
    choose|i: int| 0 <= i < entries.len() && (#[trigger] entries[i]).0 == key
}

/// Whether no key occurs twice in `entries`.
pub open spec fn keys_differ(entries: Seq<(TypeId, Slot)>) -> bool {
    forall|i: int, j: int|
        0 <= i < j < entries.len() ==> (#[trigger] entries[i]).0 != (#[trigger] entries[j]).0
}

/// The map that `entries` spells out.
pub open spec fn as_map(entries: Seq<(TypeId, Slot)>) -> Map<TypeId, Slot> {
    Map::new(|key: TypeId| has_key(entries, key), |key: TypeId| entries[place_of(entries, key)].1)
}

/// Slots under the identities of types, at most one under each.
pub struct Registry {
    entries: Vec<(TypeId, Slot)>,
}

impl View for Registry {
    type V = Map<TypeId, Slot>;

    closed spec fn view(&self) -> Map<TypeId, Slot> {
        as_map(self.entries@)
    }
}

impl Registry {
    /// No key stands in two entries.
    #[verifier::type_invariant]
    spec fn keys_occur_once(self) -> bool {
        keys_differ(self.entries@)
    }

    /// A registry that holds nothing.
    pub fn new() -> (r: Self)
        ensures
            r@ == Map::<TypeId, Slot>::empty(),
    {
        let r = Registry { entries: Vec::new() };
        assert(r@ =~= Map::<TypeId, Slot>::empty());
        r
    }

    /// The place of the entry under `key`, if there is one.
    fn find(entries: &Vec<(TypeId, Slot)>, key: &TypeId) -> (r: Option<usize>)
        ensures
            match r {
                Some(i) => i < entries@.len() && entries@[i as int].0 == *key,
                None => !has_key(entries@, *key),
            },
    {
        let mut i: usize = 0;
        while i < entries.len()
            invariant
                i <= entries@.len(),
                forall|j: int| 0 <= j < i ==> (#[trigger] entries@[j]).0 != *key,
            decreases entries@.len() - i,
        {
            if entries[i].0 == *key {
                return Some(i);
            }
            i += 1;
        }
        None
    }

    /// Puts `slot` under `key`, in place of the slot that was there.
    pub fn insert(self, key: TypeId, slot: Slot) -> (r: Self)
        ensures
            r@ == self@.insert(key, slot),
    {
        proof {
            use_type_invariant(&self);
        }
        let ghost before = self.entries@;
        let mut entries = self.entries;
        match Self::find(&entries, &key) {
            Some(i) => {
                entries.set(i, (key, slot));
                proof {
                    let after = entries@;
                    assert forall|k: TypeId| has_key(after, k) <==> (has_key(before, k) || k
                        == key) by {
                        if has_key(before, k) {
                            let j = place_of(before, k);
                            assert(after[j].0 == k);
                        }
                        if has_key(after, k) {
                            let j = place_of(after, k);
                            assert(before[j].0 == k);
                        }
                        assert(after[i as int].0 == key);
                    }
                    assert forall|k: TypeId| has_key(after, k) implies as_map(after)[k]
                        == as_map(before).insert(key, slot)[k] by {
                        let j = place_of(after, k);
                        if k == key {
                            assert(after[i as int].0 == key);
                        } else {
                            assert(before[j].0 == k);
                            let j0 = place_of(before, k);
                            assert(before[j0].0 == k);
                        }
                    }
                    assert(as_map(after) =~= as_map(before).insert(key, slot));
                }
            },
            None => {
                entries.push((key, slot));
                proof {
                    let after = entries@;
                    let last = before.len() as int;
                    assert(after[last].0 == key);
                    assert forall|k: TypeId| has_key(after, k) <==> (has_key(before, k) || k
                        == key) by {
                        if has_key(before, k) {
                            let j = place_of(before, k);
                            assert(after[j].0 == k);
                        }
                        if has_key(after, k) {
                            let j = place_of(after, k);
                            if j < last {
                                assert(before[j].0 == k);
                            }
                        }
                    }
                    assert forall|k: TypeId| has_key(after, k) implies as_map(after)[k]
                        == as_map(before).insert(key, slot)[k] by {
                        let j = place_of(after, k);
                        if k != key {
                            assert(before[j].0 == k);
                            let j0 = place_of(before, k);
                            assert(before[j0].0 == k);
                        }
                    }
                    assert(as_map(after) =~= as_map(before).insert(key, slot));
                }
            },
        }
        Registry { entries }
    }

    /// The slot under `key`, if there is one.
    pub fn get(&self, key: &TypeId) -> (r: Option<&Slot>)
        ensures
            r == (if self@.contains_key(*key) {
                Some(&self@[*key])
            } else {
                None
            }),
    {
        proof {
            use_type_invariant(self);
        }
        match Self::find(&self.entries, key) {
            Some(i) => {
                assert(self.entries@[i as int].0 == *key);
                Some(&self.entries[i].1)
            },
            None => None,
        }
    }
}

} // verus!
