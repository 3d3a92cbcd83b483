use vstd::prelude::*;

verus! {

/// What handing out the next item does to the items not handed out yet: the
/// items left, and the item handed out, if there was one.
pub open spec fn next_outcome<T>(rest: Seq<T>) -> (Seq<T>, Option<T>) {
    if rest.len() == 0 {
        (rest, None)
    } else {
        (rest.drop_first(), Some(rest[0]))
    }
}

/// Hands out the items of a consumed vector, first to last.
pub struct FixedVecOwnedIter<T> {
    slots: Vec<Option<T>>,
    idx: usize,
    item_count: usize,
    capacity: usize,
}

impl<T> View for FixedVecOwnedIter<T> {
    type V = Seq<T>;

    /// The items not handed out yet.
    closed spec fn view(&self) -> Seq<T> {
        Seq::new((self.item_count - self.idx) as nat, |k: int| self.slots@[self.idx + k]->0)
    }
}

impl<T> FixedVecOwnedIter<T> {
    #[verifier::type_invariant]
    closed spec fn well_formed(self) -> bool {
        &&& self.idx <= self.item_count == self.slots@.len()
        &&& forall|k: int| self.idx <= k < self.item_count ==> (#[trigger] self.slots@[k]) is Some
    }

    /// The capacity of the storage the items came from.
    pub closed spec fn spec_capacity(&self) -> usize {
        self.capacity
    }

    /// An iterator that hands out `items`, first to last.
    pub fn new(items: Vec<T>, capacity: usize) -> (it: Self)
        ensures
            it@ == items@,
            it.spec_capacity() == capacity,
    {
        let mut items = items;
        let ghost all = items@;
        let n = items.len();
        let mut reversed: Vec<T> = Vec::with_capacity(n);
        while items.len() > 0
            invariant
                n == all.len(),
                items@.len() + reversed@.len() == n,
                items@ == all.take(items@.len() as int),
                forall|k: int| 0 <= k < reversed@.len() ==> #[trigger] reversed@[k] == all[n - 1 - k],
            decreases items@.len(),
        {
            let item = items.pop().unwrap();
            reversed.push(item);
            assert(items@ =~= all.take(items@.len() as int));
        }
        let mut slots: Vec<Option<T>> = Vec::with_capacity(n);
        while reversed.len() > 0
            invariant
                n == all.len(),
                slots@.len() + reversed@.len() == n,
                forall|k: int| 0 <= k < reversed@.len() ==> #[trigger] reversed@[k] == all[n - 1 - k],
                forall|k: int| 0 <= k < slots@.len() ==> #[trigger] slots@[k] == Some(all[k]),
            decreases reversed@.len(),
        {
            let item = reversed.pop().unwrap();
            slots.push(Some(item));
        }
        let it = FixedVecOwnedIter { slots, idx: 0, item_count: n, capacity };
        assert(it@ =~= all);
        it
    }
    /// The next item, or `None` once all have been handed out.
    pub fn next(&mut self) -> (r: Option<T>)
        ensures
            final(self).spec_capacity() == old(self).spec_capacity(),
            (final(self)@, r) == next_outcome(old(self)@),
    {
        proof { use_type_invariant(&*self); }
        if self.idx >= self.item_count {
            return None;
        }
        let i = self.idx;
        self.idx = i + 1;
        let item = self.slots[i].take();
        assert(self@ =~= old(self)@.drop_first());
        item
    }
}

} // verus!
