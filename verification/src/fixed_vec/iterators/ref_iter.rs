use vstd::prelude::*;

verus! {

/// Hands out references to a run of items, first to last.
pub struct FixedVecRefIter<'a, T> {
    items: &'a [T],
    idx: usize,
    item_count: usize,
}

impl<'a, T> View for FixedVecRefIter<'a, T> {
    type V = Seq<T>;

    /// The items not handed out yet.
    closed spec fn view(&self) -> Seq<T> {
        self.items@.subrange(self.idx as int, self.item_count as int)
    }
}

impl<'a, T> FixedVecRefIter<'a, T> {
    #[verifier::type_invariant]
    closed spec fn well_formed(self) -> bool {
        self.idx <= self.item_count <= self.items@.len()
    }

    /// An iterator over the first `item_count` items of `items`.
    pub fn new(items: &'a [T], item_count: usize) -> (it: Self)
        requires
            item_count <= items@.len(),
        ensures
            it@ == items@.take(item_count as int),
    {
        FixedVecRefIter { items, idx: 0, item_count }
    }

    /// The next item, or `None` once all have been handed out.
    pub fn next(&mut self) -> (r: Option<&'a T>)
        ensures
            old(self)@.len() == 0 ==> r is None && final(self)@ == old(self)@,
            old(self)@.len() > 0 ==> r == Some(&old(self)@[0]) && final(self)@ == old(self)@.drop_first(),
    {
        proof { use_type_invariant(&*self); }
        if self.idx >= self.item_count {
            return None;
        }
        let items: &'a [T] = self.items;
        let i = self.idx;
        self.idx = i + 1;
        assert(self@ =~= old(self)@.drop_first());
        Some(&items[i])
    }
}

} // verus!
