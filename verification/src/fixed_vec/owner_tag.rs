use std::marker::PhantomData;

use vstd::prelude::*;

use crate::fixed_vec::BorrowedSlots;
use crate::fixed_vec::FixedVec;

verus! {

/// Where a `FixedVec` under a policy keeps its items.
pub trait StoragePolicy<T>: Sized {
    type Storage;
}

/// What becomes of the items when a `FixedVec` is released.
pub trait DropPolicy<T>: StoragePolicy<T> {
    /// Releases the vector's items as the policy says.
    fn drop_fixed_vec(fixed_vec: &mut FixedVec<T, Self>);
}

/// The vector owns its items and drops them when released.
pub struct Owned;

/// An owned vector keeps its items in a `Vec` of its own.
impl<T> StoragePolicy<T> for Owned {
    type Storage = Vec<T>;
}

impl<T> DropPolicy<T> for Owned {
    /// Drops every item, first to last.
    fn drop_fixed_vec(fixed_vec: &mut FixedVec<T, Self>)
        ensures
            final(fixed_vec)@ == Seq::<T>::empty(),
            final(fixed_vec).spec_capacity() == old(fixed_vec).spec_capacity(),
    {
        fixed_vec.storage.clear();
    }
}

/// The vector lends memory that belongs to someone else and drops nothing.
pub struct Reference<'a>(PhantomData<&'a ()>);

/// A borrowing vector keeps its items in the lender's slots.
impl<'a, T: 'a> StoragePolicy<T> for Reference<'a> {
    type Storage = BorrowedSlots<'a, T>;
}

impl<'a, T: 'a> DropPolicy<T> for Reference<'a> {
    /// Leaves the items where they are: they are not the vector's to drop.
    fn drop_fixed_vec(fixed_vec: &mut FixedVec<T, Self>)
        ensures
            *final(fixed_vec) == *old(fixed_vec),
    {
    }
}

} // verus!
