use std::marker::PhantomData;
use std::mem::MaybeUninit;

use vstd::prelude::*;

use crate::fixed_vec::iterators::owned_iter::FixedVecOwnedIter;
use crate::fixed_vec::iterators::ref_iter::FixedVecRefIter;
use crate::fixed_vec::iterators::ref_mut_iter::FixedVecRefMutIter;
use crate::fixed_vec::owner_tag::DropPolicy;
use crate::fixed_vec::owner_tag::Owned;
use crate::fixed_vec::owner_tag::Reference;
use crate::fixed_vec::owner_tag::StoragePolicy;

pub mod iterators;
pub mod laws;
pub mod owner_tag;

verus! {

/// What a push does to a vector holding `contents` with room for `capacity`
/// items: the new contents, and the item handed back when there was no room.
pub open spec fn push_outcome<T>(contents: Seq<T>, capacity: nat, item: T) -> (Seq<T>, Option<T>) {
    if contents.len() < capacity {
        (contents.push(item), None)
    } else {
        (contents, Some(item))
    }
}

/// What a pop does to a vector holding `contents`: the new contents, and the
/// item taken from the back, if there was one.
pub open spec fn pop_outcome<T>(contents: Seq<T>) -> (Seq<T>, Option<T>) {
    if contents.len() == 0 {
        (contents, None)
    } else {
        (contents.drop_last(), Some(contents.last()))
    }
}

/// The first `len` slots hold a value.
pub open spec fn slots_initialized<T>(slots: Seq<Option<T>>, len: nat) -> bool {
    &&& len <= slots.len()
    &&& forall|i: int| 0 <= i < len ==> (#[trigger] slots[i]) is Some
}

/// The values held by the first `len` slots.
pub open spec fn slot_values<T>(slots: Seq<Option<T>>, len: nat) -> Seq<T> {
    Seq::new(len, |i: int| slots[i]->0)
}

/// Moves the values out of the first `len` slots, in order, into a vector
/// that was made with room for `room` items.
fn take_initialized<T>(slots: &mut [Option<T>], len: usize, room: usize) -> (items: Vec<T>)
    requires
        slots_initialized(old(slots)@, len as nat),
    ensures
        items@ == slot_values(old(slots)@, len as nat),
{
    let mut items: Vec<T> = Vec::with_capacity(room);
    let mut i: usize = 0;
    while i < len
        invariant
            i <= len <= slots@.len(),
            slots@.len() == old(slots)@.len(),
            slots_initialized(old(slots)@, len as nat),
            items@ == slot_values(old(slots)@, i as nat),
            forall|k: int| 0 <= k < i ==> (#[trigger] slots@[k]) is None,
            forall|k: int| i <= k < slots@.len() ==> #[trigger] slots@[k] == old(slots)@[k],
        decreases len - i,
    {
        let item = slots[i].take().unwrap();
        items.push(item);
        i = i + 1;
        assert(items@ =~= slot_values(old(slots)@, i as nat));
    }
    items
}

/// A vector whose capacity is fixed when it is made.
///
/// Pushing onto a full vector hands the item back instead of growing it.
pub struct FixedVec<T, Policy: StoragePolicy<T> = Owned> {
    storage: Policy::Storage,
    capacity: usize,
    _drop_policy: PhantomData<Policy>,
}

/// Slots of borrowed memory: the first `len` hold the vector's items.
pub struct BorrowedSlots<'a, T> {
    slots: &'a mut [Option<T>],
    len: usize,
}

impl<T> View for FixedVec<T, Owned> {
    type V = Seq<T>;

    /// The items, first to last.
    closed spec fn view(&self) -> Seq<T> {
        self.storage@
    }
}

impl<'a, T: 'a> View for FixedVec<T, Reference<'a>> {
    type V = Seq<T>;

    /// The items, first to last: the values of the first `len` lent slots.
    closed spec fn view(&self) -> Seq<T> {
        slot_values(self.storage.slots@, self.storage.len as nat)
    }
}

impl<T, Policy: StoragePolicy<T>> FixedVec<T, Policy> {
    /// How many items the vector has room for.
    pub closed spec fn spec_capacity(&self) -> usize {
        self.capacity
    }
}

impl<'a, T: 'a> FixedVec<T, Reference<'a>> {
    /// The lender's slots, which hold the items in place.
    pub closed spec fn lent(&self) -> &'a mut [Option<T>] {
        self.storage.slots
    }

    /// The vector never holds more items than its capacity, its capacity fits
    /// in the lent slots, and each of its items is in a slot.
    pub open spec fn well_formed(&self) -> bool {
        &&& self@.len() <= self.spec_capacity() <= self.lent()@.len()
        &&& slots_initialized(self.lent()@, self@.len())
        &&& self@ == slot_values(self.lent()@, self@.len())
    }

    /// Makes a vector over the first `capacity` of the lender's slots, of which
    /// the first `len` hold its items. The items stay in the lender's slots,
    /// and whatever the vector holds when the borrow ends is left there.
    pub fn new_from_parts(slots: &'a mut [Option<T>], capacity: usize, len: usize) -> (fv: Self)
        requires
            capacity <= old(slots)@.len(),
            len <= capacity,
            slots_initialized(old(slots)@, len as nat),
        ensures
            fv.well_formed(),
            fv.spec_capacity() == capacity,
            fv@ == slot_values(old(slots)@, len as nat),
            fv.lent()@ == old(slots)@,
            final(slots)@ == final(fv.lent())@,
    {
        FixedVec { storage: BorrowedSlots { slots, len }, capacity, _drop_policy: PhantomData }
    }

    /// Makes a full vector over the first `len` slots of `r`, which hold its
    /// items; its capacity is `len`. The items stay in the lender's slots.
    pub fn new_from_slice(r: &'a mut [Option<T>], len: usize) -> (fv: Self)
        requires
            slots_initialized(old(r)@, len as nat),
        ensures
            fv.well_formed(),
            fv.spec_capacity() == len,
            fv@ == slot_values(old(r)@, len as nat),
            fv.lent()@ == old(r)@,
            final(r)@ == final(fv.lent())@,
    {
        FixedVec { storage: BorrowedSlots { slots: r, len }, capacity: len, _drop_policy: PhantomData }
    }

    /// Returns the lender's slots, where the items are kept.
    pub fn ptr(&self) -> (slots: &[Option<T>])
        ensures
            slots@ == self.lent()@,
    {
        self.storage.slots
    }

    /// Returns the capacity
    pub fn capacity(&self) -> (c: usize)
        ensures
            c == self.spec_capacity(),
    {
        self.capacity
    }

    /// Returns the length
    pub fn len(&self) -> (n: usize)
        ensures
            n == self@.len(),
    {
        self.storage.len
    }

    /// Pushes a value into the next lent slot; hands it back if there is no
    /// more space.
    pub fn push(&mut self, item: T) -> (r: Option<T>)
        requires
            old(self).well_formed(),
        ensures
            final(self).well_formed(),
            final(self).spec_capacity() == old(self).spec_capacity(),
            (final(self)@, r) == push_outcome(old(self)@, old(self).spec_capacity() as nat, item),
            r is None ==> final(self).lent()@ == old(self).lent()@.update(old(self)@.len() as int, Some(item)),
            r is Some ==> final(self).lent()@ == old(self).lent()@,
            final(final(self).lent())@ == final(old(self).lent())@,
    {
        let len = self.storage.len;
        if len >= self.capacity {
            return Some(item);
        }
        self.storage.slots[len] = Some(item);
        self.storage.len = len + 1;
        assert(self@ =~= old(self)@.push(item));
        None
    }

    /// Takes the last value out of its lent slot; `None` if there is no item left.
    pub fn pop(&mut self) -> (r: Option<T>)
        requires
            old(self).well_formed(),
        ensures
            final(self).well_formed(),
            final(self).spec_capacity() == old(self).spec_capacity(),
            (final(self)@, r) == pop_outcome(old(self)@),
            r is Some ==> final(self).lent()@ == old(self).lent()@.update(old(self)@.len() - 1, None),
            r is None ==> final(self).lent()@ == old(self).lent()@,
            final(final(self).lent())@ == final(old(self).lent())@,
    {
        let len = self.storage.len;
        if len == 0 {
            return None;
        }
        let item = self.storage.slots[len - 1].take();
        self.storage.len = len - 1;
        assert(self@ =~= old(self)@.drop_last());
        item
    }

    /// Returns a reference to the value at `idx`, if there is one.
    pub fn get(&self, idx: usize) -> (r: Option<&T>)
        requires
            self.well_formed(),
        ensures
            idx < self@.len() ==> r == Some(&self@[idx as int]),
            idx >= self@.len() ==> r is None,
    {
        if idx >= self.storage.len {
            return None;
        }
        self.storage.slots[idx].as_ref()
    }

    /// Returns a mutable reference to the value at `idx`, if there is one;
    /// what is written through it stays in the lender's slot.
    pub fn get_mut(&mut self, idx: usize) -> (r: Option<&mut T>)
        requires
            old(self).well_formed(),
        ensures
            final(self).well_formed(),
            final(self).spec_capacity() == old(self).spec_capacity(),
            idx < old(self)@.len() ==> r is Some && *r.unwrap() == old(self)@[idx as int]
                && final(self)@ == old(self)@.update(idx as int, *final(r.unwrap()))
                && final(self).lent()@ == old(self).lent()@.update(idx as int, Some(*final(r.unwrap()))),
            idx >= old(self)@.len() ==> r is None && final(self)@ == old(self)@
                && final(self).lent()@ == old(self).lent()@,
            final(final(self).lent())@ == final(old(self).lent())@,
    {
        if idx >= self.storage.len {
            return None;
        }
        let r = self.storage.slots[idx].as_mut();
        r
    }

    /// Ends the borrow as the `Reference` policy says: nothing is dropped, and
    /// the lender's slots keep what the vector held.
    pub fn release(self)
        ensures
            final(self.lent())@ == self.lent()@,
    {
        let mut fv = self;
        Reference::drop_fixed_vec(&mut fv);
        let BorrowedSlots { slots, len: _ } = fv.storage;
        let _ = slots;
    }
}

impl<T> FixedVec<T, Owned> {
    /// The `Vec` that holds the items, allocation and all.
    pub closed spec fn owned_storage(&self) -> Vec<T> {
        self.storage
    }

    /// The vector never holds more items than its capacity.
    pub open spec fn well_formed(&self) -> bool {
        self@.len() <= self.spec_capacity()
    }

    /// Creates a new vector with room for `capacity` items and no items.
    pub fn new(capacity: usize) -> (fv: Self)
        requires
            capacity * vstd::layout::size_of::<T>() <= isize::MAX,
        ensures
            fv.well_formed(),
            fv.spec_capacity() == capacity,
            fv@ == Seq::<T>::empty(),
    {
        FixedVec { storage: Vec::with_capacity(capacity), capacity, _drop_policy: PhantomData }
    }

    /// Makes a vector over boxed slots of which the first `value.1` hold items;
    /// its capacity is the number of slots.
    pub fn from_boxed_parts(value: (Box<[Option<T>]>, usize)) -> (fv: Self)
        requires
            slots_initialized(value.0@, value.1 as nat),
        ensures
            fv.well_formed(),
            fv.spec_capacity() == value.0@.len(),
            fv@ == slot_values(value.0@, value.1 as nat),
    {
        let (boxed, len) = value;
        let mut slots = boxed.into_vec();
        let capacity = slots.len();
        let items = take_initialized(slots.as_mut_slice(), len, capacity);
        FixedVec { storage: items, capacity, _drop_policy: PhantomData }
    }

    /// Converts the vector into a boxed slice of its items.
    pub fn to_boxed_slice(self) -> (b: Box<[T]>)
        ensures
            b@ == self@,
    {
        boxed_slice_from_vec(self.storage)
    }

    /// Converts the vector into a `Vec` of its items: the very `Vec` that held
    /// them, so nothing is copied and its allocation is kept.
    pub fn to_vec(self) -> (v: Vec<T>)
        ensures
            v@ == self@,
            v == self.owned_storage(),
    {
        self.storage
    }

    /// An iterator that hands out the items, first to last.
    pub fn into_iter(self) -> (it: FixedVecOwnedIter<T>)
        ensures
            it@ == self@,
            it.spec_capacity() == self.spec_capacity(),
    {
        FixedVecOwnedIter::new(self.storage, self.capacity)
    }

    pub open spec fn spec_len(&self) -> usize {
        self@.len() as usize
    }

    /// Returns the items, as the slice that the vector's storage holds.
    pub fn ptr(&self) -> (items: &[T])
        ensures
            items@ == self@,
    {
        self.storage.as_slice()
    }

    /// Returns the capacity
    pub fn capacity(&self) -> (c: usize)
        ensures
            c == self.spec_capacity(),
    {
        self.capacity
    }

    /// Returns the length
    #[verifier::when_used_as_spec(spec_len)]
    pub fn len(&self) -> (n: usize)
        ensures
            n == self@.len(),
    {
        self.storage.len()
    }

    /// Pushes a value into the vector; hands it back if there is no more space.
    pub fn push(&mut self, item: T) -> (r: Option<T>)
        ensures
            old(self).well_formed() ==> final(self).well_formed(),
            final(self).spec_capacity() == old(self).spec_capacity(),
            (final(self)@, r) == push_outcome(old(self)@, old(self).spec_capacity() as nat, item),
    {
        if self.storage.len() >= self.capacity {
            return Some(item);
        }
        self.storage.push(item);
        None
    }

    /// Pops the last value from the vector; `None` if there is no item left.
    pub fn pop(&mut self) -> (r: Option<T>)
        ensures
            old(self).well_formed() ==> final(self).well_formed(),
            final(self).spec_capacity() == old(self).spec_capacity(),
            (final(self)@, r) == pop_outcome(old(self)@),
    {
        if self.storage.len() == 0 {
            return None;
        }
        self.storage.pop()
    }

    /// Returns a reference to the value at `idx`, if there is one.
    pub fn get(&self, idx: usize) -> (r: Option<&T>)
        ensures
            idx < self@.len() ==> r == Some(&self@[idx as int]),
            idx >= self@.len() ==> r is None,
    {
        if idx >= self.storage.len() {
            return None;
        }
        Some(&self.storage[idx])
    }

    /// Returns a mutable reference to the value at `idx`, if there is one.
    pub fn get_mut(&mut self, idx: usize) -> (r: Option<&mut T>)
        ensures
            old(self).well_formed() ==> final(self).well_formed(),
            final(self).spec_capacity() == old(self).spec_capacity(),
            idx < old(self)@.len() ==> r is Some && *r.unwrap() == old(self)@[idx as int]
                && final(self)@ == old(self)@.update(idx as int, *final(r.unwrap())),
            idx >= old(self)@.len() ==> r is None && final(self)@ == old(self)@,
    {
        if idx >= self.storage.len() {
            return None;
        }
        Some(&mut self.storage[idx])
    }

    /// An iterator over references to the items, first to last.
    pub fn iter(&self) -> (it: FixedVecRefIter<'_, T>)
        ensures
            it@ == self@,
    {
        let items = self.storage.as_slice();
        FixedVecRefIter::new(items, items.len())
    }

    /// An iterator over mutable references to the items, first to last.
    pub fn iter_mut(&mut self) -> (it: FixedVecRefMutIter<'_, T>)
        ensures
            it.items@ == old(self)@,
            final(self)@ == final(it.items)@,
            final(self).spec_capacity() == old(self).spec_capacity(),
    {
        let items = self.storage.as_mut_slice();
        let n = items.len();
        FixedVecRefMutIter::new(items, n)
    }
}

impl<T> From<Vec<T>> for FixedVec<T, Owned> {
    /// Takes over the vector's items; the capacity is the vector's capacity.
    fn from(value: Vec<T>) -> (fv: Self)
        ensures
            fv.well_formed(),
            value@.len() <= fv.spec_capacity(),
            fv@ == value@,
            fv.owned_storage() == value,
            vstd::layout::size_of::<T>() == 0 ==> fv.spec_capacity() == usize::MAX,
            vstd::layout::size_of::<T>() > 0
                ==> fv.spec_capacity() * vstd::layout::size_of::<T>() <= isize::MAX,
    {
        let capacity = vec_capacity(&value);
        FixedVec { storage: value, capacity, _drop_policy: PhantomData }
    }
}

impl<T> vstd::std_specs::convert::FromSpecImpl<Vec<T>> for FixedVec<T, Owned> {
    open spec fn obeys_from_spec() -> bool {
        false
    }

    open spec fn from_spec(v: Vec<T>) -> Self {
        vstd::pervasive::arbitrary()
    }
}

impl<T> From<Box<[T]>> for FixedVec<T, Owned> {
    /// Takes over the boxed items; the vector is full.
    fn from(value: Box<[T]>) -> (fv: Self)
        ensures
            fv.well_formed(),
            fv.spec_capacity() == value@.len(),
            fv@ == value@,
    {
        let items = value.into_vec();
        let capacity = items.len();
        FixedVec { storage: items, capacity, _drop_policy: PhantomData }
    }
}

impl<T> vstd::std_specs::convert::FromSpecImpl<Box<[T]>> for FixedVec<T, Owned> {
    open spec fn obeys_from_spec() -> bool {
        false
    }

    open spec fn from_spec(v: Box<[T]>) -> Self {
        vstd::pervasive::arbitrary()
    }
}

impl<T> From<Box<[MaybeUninit<T>]>> for FixedVec<T, Owned> {
    /// An empty vector with one place for each slot of the box.
    fn from(value: Box<[MaybeUninit<T>]>) -> (fv: Self)
        ensures
            fv.well_formed(),
            fv.spec_capacity() == value@.len(),
            fv@ == Seq::<T>::empty(),
    {
        let capacity = value.len();
        FixedVec { storage: Vec::with_capacity(capacity), capacity, _drop_policy: PhantomData }
    }
}

impl<T> vstd::std_specs::convert::FromSpecImpl<Box<[MaybeUninit<T>]>> for FixedVec<T, Owned> {
    open spec fn obeys_from_spec() -> bool {
        false
    }

    open spec fn from_spec(v: Box<[MaybeUninit<T>]>) -> Self {
        vstd::pervasive::arbitrary()
    }
}

impl<T> std::ops::Deref for FixedVec<T, Owned> {
    type Target = [T];

    /// The items as a slice.
    fn deref(&self) -> (items: &[T])
        ensures
            items@ == self@,
    {
        self.storage.as_slice()
    }
}

impl<T> std::ops::DerefMut for FixedVec<T, Owned> {
    /// The items as a mutable slice; what is written through it stays in the vector.
    fn deref_mut(&mut self) -> (items: &mut [T])
        ensures
            items@ == old(self)@,
            final(self)@ == final(items)@,
            final(self).spec_capacity() == old(self).spec_capacity(),
    {
        self.storage.as_mut_slice()
    }
}

/// `Vec::capacity`: the vector has room for at least its items; a vector of
/// zero-sized items has room for `usize::MAX` of them, and any other vector for
/// no more than `isize::MAX` bytes of them.
#[verifier::external_body]
fn vec_capacity<T>(v: &Vec<T>) -> (c: usize)
    ensures
        v@.len() <= c,
        vstd::layout::size_of::<T>() == 0 ==> c == usize::MAX,
        vstd::layout::size_of::<T>() > 0 ==> c * vstd::layout::size_of::<T>() <= isize::MAX,
{
    v.capacity()
}

/// `Vec::into_boxed_slice`: the box holds the vector's items, in order.
#[verifier::external_body]
fn boxed_slice_from_vec<T>(v: Vec<T>) -> (b: Box<[T]>)
    ensures
        b@ == v@,
{
    v.into_boxed_slice()
}

} // verus!
