//! A growing list whose elements are told apart by keys.
//!
//! A view that renders a list of inputs needs a key for each element, one
//! that stays with the element while others come after it. [`KeyedVec`]
//! hands the keys out: each element gets the number of elements that were
//! there before it.

use vstd::prelude::*;

verus! {

/// Elements in the order in which they were pushed, each with its key.
pub struct KeyedVec<T> {
    next_id: usize,
    vec: Vec<(usize, T)>,
}

impl<T> View for KeyedVec<T> {
    type V = Seq<(usize, T)>;

    closed spec fn view(&self) -> Seq<(usize, T)> {
        self.vec@
    }
}

/// Every element has its place as its key, so no two share one.
pub open spec fn keyed_by_place<T>(entries: Seq<(usize, T)>) -> bool {
    forall|i: int| 0 <= i < entries.len() ==> (#[trigger] entries[i]).0 == i
}

impl<T> KeyedVec<T> {
    #[verifier::type_invariant]
    spec fn well_formed(&self) -> bool {
        &&& self.next_id == self.vec@.len()
        &&& keyed_by_place(self.vec@)
    }

    /// The empty list.
    pub fn new() -> (list: Self)
        ensures
            list@ == Seq::<(usize, T)>::empty(),
    {
        KeyedVec { next_id: 0, vec: Vec::new() }
    }

    /// Appends `element` under the next key.
    pub fn push(&mut self, element: T)
        ensures
            final(self)@ == old(self)@.push((old(self)@.len() as usize, element)),
            keyed_by_place(final(self)@),
    {
        let mut list: KeyedVec<T> = KeyedVec::new();
        std::mem::swap(self, &mut list);
        proof {
            use_type_invariant(&list);
        }
        let KeyedVec { next_id, mut vec } = list;
        vec.push((next_id, element));
        *self = KeyedVec { next_id: vec.len(), vec };
    }
}

impl<T: Clone> KeyedVec<T> {
    /// The elements with their keys, in order; each element is a clone.
    pub fn get(&self) -> (entries: Vec<(usize, T)>)
        ensures
            entries@.len() == self@.len(),
            keyed_by_place(entries@),
            forall|i: int|
                0 <= i < entries@.len() ==> cloned::<T>(self@[i].1, (#[trigger] entries@[i]).1),
    {
        proof {
            use_type_invariant(self);
        }
        let mut entries: Vec<(usize, T)> = Vec::new();
        let mut i: usize = 0;
        while i < self.vec.len()
            invariant
                i <= self.vec.len(),
                entries@.len() == i,
                keyed_by_place(self.vec@),
                keyed_by_place(entries@),
                forall|k: int|
                    0 <= k < i ==> cloned::<T>(self.vec@[k].1, (#[trigger] entries@[k]).1),
            decreases self.vec.len() - i,
        {
            entries.push((self.vec[i].0, self.vec[i].1.clone()));
            i += 1;
        }
        entries
    }

    /// The elements without their keys, in order; each is a clone.
    pub fn get_values(&self) -> (values: Vec<T>)
        ensures
            values@.len() == self@.len(),
            forall|i: int| 0 <= i < values@.len() ==> cloned::<T>(self@[i].1, #[trigger] values@[i]),
    {
        let mut values: Vec<T> = Vec::new();
        let mut i: usize = 0;
        while i < self.vec.len()
            invariant
                i <= self.vec.len(),
                values@.len() == i,
                forall|k: int| 0 <= k < i ==> cloned::<T>(self.vec@[k].1, #[trigger] values@[k]),
            decreases self.vec.len() - i,
        {
            values.push(self.vec[i].1.clone());
            i += 1;
        }
        values
    }
}

impl<T: Clone> Clone for KeyedVec<T> {
    fn clone(&self) -> (copy: Self)
        ensures
            copy@.len() == self@.len(),
            keyed_by_place(copy@),
            forall|i: int|
                0 <= i < copy@.len() ==> cloned::<T>(self@[i].1, (#[trigger] copy@[i]).1),
    {
        let vec = self.get();
        KeyedVec { next_id: vec.len(), vec }
    }
}

} // verus!
