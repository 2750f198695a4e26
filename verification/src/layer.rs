//! One configuration layer: a sparse mapping from keys to values.

use vstd::prelude::*;
use crate::key::{Key, KEY_COUNT};
use crate::value::{Val, Value};

verus! {

/// A sparse mapping from keys to values: it holds the keys that one source
/// of configuration sets, and no others.
#[derive(Debug)]
pub struct Layer {
    /// One slot for each key, at the key's position.
    slots: Vec<Option<Value>>,
}

impl View for Layer {
    type V = Map<Key, Val>;

    closed spec fn view(&self) -> Map<Key, Val> {
        Map::new(
            |k: Key| self.slots@[k.ord()] is Some,
            |k: Key| self.slots@[k.ord()].unwrap()@,
        )
    }
}

impl DeepView for Layer {
    type V = Map<Key, Val>;

    open spec fn deep_view(&self) -> Map<Key, Val> {
        self@
    }
}

impl Layer {
    #[verifier::type_invariant]
    spec fn well_formed(self) -> bool {
        self.slots@.len() == KEY_COUNT
    }

    /// The layer that sets no key.
    pub fn new() -> (layer: Layer)
        ensures
            layer@ == Map::<Key, Val>::empty(),
    {
        let mut slots: Vec<Option<Value>> = Vec::new();
        while slots.len() < KEY_COUNT
            invariant
                slots@.len() <= KEY_COUNT,
                forall|i: int| 0 <= i < slots@.len() ==> slots@[i] is None,
            decreases KEY_COUNT - slots@.len(),
        {
            slots.push(None);
        }
        let layer = Layer { slots };
        layer
    }

    /// The layer with `key` set to `value`, in place of what it held for it.
    pub fn set(self, key: Key, value: Value) -> (layer: Layer)
        ensures
            layer@ == self@.insert(key, value@),
    {
        proof {
            use_type_invariant(&self);
        }
        let i = key.index();
        let mut slots = self.slots;
        slots.set(i, Some(value));
        let layer = Layer { slots };
        layer
    }

    /// The value that the layer holds for `key`, if it sets the key.
    pub fn get(&self, key: Key) -> (value: Option<&Value>)
        ensures
            match value {
                Some(v) => self@.contains_key(key) && self@[key] == v@,
                None => !self@.contains_key(key),
            },
    {
        proof {
            use_type_invariant(self);
        }
        self.slots[key.index()].as_ref()
    }

    /// This layer with `upper` laid over it: a key that `upper` sets takes its
    /// value from `upper`, every other key keeps what it had.
    pub fn overlay(self, upper: &Layer) -> (layer: Layer)
        ensures
            layer@ == self@.union_prefer_right(upper@),
    {
        proof {
            use_type_invariant(&self);
            use_type_invariant(upper);
        }
        let ghost before = self.slots@;
        let mut slots = self.slots;
        let mut i: usize = 0;
        while i < KEY_COUNT
            invariant
                i <= KEY_COUNT,
                slots@.len() == KEY_COUNT,
                before.len() == KEY_COUNT,
                upper.slots@.len() == KEY_COUNT,
                forall|j: int|
                    0 <= j < i ==> slots@[j].deep_view() == (if upper.slots@[j] is Some {
                        upper.slots@[j].deep_view()
                    } else {
                        before[j].deep_view()
                    }),
                forall|j: int| i <= j < KEY_COUNT ==> slots@[j] == before[j],
            decreases KEY_COUNT - i,
        {
            match &upper.slots[i] {
                Some(value) => {
                    let copy = value.clone();
                    slots.set(i, Some(copy));
                },
                None => {},
            }
            i += 1;
        }
        let layer = Layer { slots };
        layer
    }
}

impl Clone for Layer {
    fn clone(&self) -> (copy: Self)
        ensures
            copy@ == self@,
    {
        let copy = Layer::new().overlay(self);
        copy
    }
}

} // verus!
