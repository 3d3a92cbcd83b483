use vstd::prelude::*;

verus! {

/// Hands out mutable references to a run of items, first to last.
///
/// `items` are the items not handed out yet; what is written through the
/// references lands in the memory they were borrowed from.
pub struct FixedVecRefMutIter<'a, T> {
    pub items: &'a mut [T],
}

impl<'a, T> FixedVecRefMutIter<'a, T> {
    /// An iterator over the first `item_count` items of `items`.
    pub fn new(items: &'a mut [T], item_count: usize) -> (r: Self)
        requires
            item_count <= old(items)@.len(),
        ensures
            r.items@ == old(items)@.take(item_count as int),
            final(items)@ == final(r.items)@ + old(items)@.skip(item_count as int),
    {
        let (head, _tail) = items.split_at_mut(item_count);
        FixedVecRefMutIter { items: head }
    }

    /// The next item, or `None` once all have been handed out.
    pub fn next(&mut self) -> (r: Option<&'a mut T>)
        ensures
            old(self).items@.len() == 0 ==> r is None && final(self).items@ == old(self).items@
                && final(old(self).items)@ == final(final(self).items)@,
            old(self).items@.len() > 0 ==> r is Some && *r.unwrap() == old(self).items@[0]
               && final(self).items@ == old(self).items@.drop_first()
               && final(old(self).items)@ == seq![*final(r.unwrap())] + final(final(self).items)@,
    {
        if self.items.len() == 0 {
            return None;
        }
        let mut rest: &'a mut [T] = &mut [];
        std::mem::swap(&mut rest, &mut self.items);
        let (first, tail) = rest.split_at_mut(1);
        self.items = tail;
        first.first_mut()
    }
}

} // verus!
