use std::mem::MaybeUninit;

use fixed_vec::DropPolicy;
use fixed_vec::FixedVec;
use fixed_vec::FixedVecOwnedIter;
use fixed_vec::FixedVecRefIter;
use fixed_vec::FixedVecRefMutIter;
use fixed_vec::Owned;
use fixed_vec::Reference;

#[test]
fn push_then_pop_in_reverse_order() {
    let mut fv = FixedVec::new(2);
    assert_eq!(None, fv.push(1));
    assert_eq!(None, fv.push(2));

    assert_eq!(Some(2), fv.pop());
    assert_eq!(Some(1), fv.pop());
}

#[test]
fn new_from_parts_pushes_into_borrowed_slots() {
    let mut slots: [Option<i32>; 2] = [None, None];
    let mut fv = FixedVec::new_from_parts(&mut slots, 2, 0);
    assert_eq!(None, fv.push(1));
    assert_eq!(None, fv.push(2));
    assert_eq!(fv.get(0), Some(&1));
    assert_eq!(fv.get(1), Some(&2));
    assert_eq!(fv.push(3), Some(3));
}

#[test]
fn new_from_parts_keeps_items_in_the_lent_slots() {
    let mut slots = [Some(7), Some(8), None, None];
    {
        let mut fv = FixedVec::new_from_parts(&mut slots, 3, 2);
        assert_eq!(fv.len(), 2);
        assert_eq!(fv.capacity(), 3);
        assert_eq!(fv.get(0), Some(&7));
        assert_eq!(fv.get(1), Some(&8));
        assert_eq!(fv.get(2), None);
        assert_eq!(fv.push(9), None);
        assert_eq!(fv.push(10), Some(10));
        assert_eq!(fv.ptr(), &[Some(7), Some(8), Some(9), None]);
        fv.release();
    }
    assert_eq!(slots, [Some(7), Some(8), Some(9), None]);
}

#[test]
fn new_from_slice_is_full() {
    let mut slice = [Some(1), Some(2), None, None];

    let mut fv = FixedVec::new_from_slice(&mut slice, 2);
    assert_eq!(fv.get(0), Some(&1));
    assert_eq!(fv.get(1), Some(&2));
    assert_eq!(fv.capacity(), 2);
    assert_eq!(fv.len(), 2);
    assert_eq!(fv.push(3), Some(3));
    assert_eq!(fv.pop(), Some(2));
    assert_eq!(fv.push(4), None);
    assert_eq!(fv.get(1), Some(&4));
}

#[test]
fn writes_through_a_borrowing_vector_stay_with_the_lender() {
    let mut s = [Some(1), Some(2), None, None];
    {
        let mut fv = FixedVec::new_from_slice(&mut s, 2);
        *fv.get_mut(0).unwrap() = 7;
        drop(fv);
    }
    assert_eq!(s[0], Some(7));
    assert_eq!(s[1], Some(2));
}

#[test]
fn pop_from_a_borrowing_vector_empties_the_slot() {
    let mut s = [Some(1), Some(2), Some(3)];
    {
        let mut fv = FixedVec::new_from_parts(&mut s, 3, 3);
        assert_eq!(fv.pop(), Some(3));
        assert_eq!(fv.get_mut(5), None);
        fv.release();
    }
    assert_eq!(s, [Some(1), Some(2), None]);
}

#[test]
fn new_has_capacity_and_no_items() {
    let mut fv = FixedVec::new(4);

    assert_eq!(4, fv.capacity());
    assert_eq!(0, fv.len());

    assert_eq!(None, fv.push(0));

    assert_eq!(fv.get(0), Some(&0));
}

#[test]
fn to_boxed_slice_keeps_items() {
    let mut fv = FixedVec::new(4);

    assert_eq!(None, fv.push(1));

    let b = fv.to_boxed_slice();

    assert_eq!(b.len(), 1);
    assert_eq!(b.get(0), Some(&1));
    assert_eq!(b.get(1), None);
}

#[test]
fn to_boxed_slice_of_empty_vector() {
    let fv: FixedVec<String> = FixedVec::new(3);
    let b = fv.to_boxed_slice();
    assert_eq!(b.len(), 0);
}

#[test]
fn to_vec_keeps_items_and_capacity() {
    let mut fv = FixedVec::new(4);

    assert_eq!(None, fv.push(1));

    let v = fv.to_vec();

    assert_eq!(v.capacity(), 4);
    assert_eq!(v.len(), 1);
    assert_eq!(v.get(0), Some(&1));
    assert_eq!(v.get(1), None);
}

#[test]
fn ptr_shows_the_items() {
    let mut fv = FixedVec::new(4);
    let _ptr = fv.ptr();
    assert_eq!(fv.push(5), None);
    assert_eq!(fv.ptr(), &[5]);
}

#[test]
fn capacity_is_what_new_was_given() {
    let fv = FixedVec::<i32>::new(4);

    assert_eq!(fv.capacity(), 4);
}

#[test]
fn len_counts_pushed_items() {
    let mut fv = FixedVec::new(4);

    assert_eq!(fv.len(), 0);
    assert_eq!(fv.push(1), None);
    assert_eq!(fv.len(), 1);
}

#[test]
fn push_hands_back_item_when_full() {
    let mut fv = FixedVec::new(2);

    assert_eq!(fv.push(1), None);
    assert_eq!(fv.push(2), None);
    assert_eq!(fv.push(3), Some(3));
    assert_eq!(fv.len(), 2);
    assert_eq!(fv.get(1), Some(&2));
}

#[test]
fn push_on_zero_capacity() {
    let mut fv = FixedVec::new(0);
    assert_eq!(fv.push("a"), Some("a"));
    assert_eq!(fv.len(), 0);
}

#[test]
fn pop_until_empty() {
    let mut fv = FixedVec::new(2);

    assert_eq!(fv.push(1), None);
    assert_eq!(fv.push(2), None);
    assert_eq!(fv.pop(), Some(2));
    assert_eq!(fv.pop(), Some(1));
    assert_eq!(fv.pop(), None);
    assert_eq!(fv.capacity(), 2);
}

#[test]
fn get_in_and_out_of_range() {
    let fv: FixedVec<_> = vec![1, 2, 3].into();

    assert_eq!(fv.get(0), Some(&1));
    assert_eq!(fv.get(1), Some(&2));
    assert_eq!(fv.get(2), Some(&3));

    assert_eq!(fv.get(69), None);
}

#[test]
fn get_mut_writes_into_the_vector() {
    let mut fv: FixedVec<_> = vec![1, 2, 3].into();

    assert_eq!(fv.get_mut(0), Some(&mut 1));
    assert_eq!(fv.get_mut(1), Some(&mut 2));
    assert_eq!(fv.get_mut(2), Some(&mut 3));

    assert_eq!(fv.get_mut(69), None);

    *fv.get_mut(0).unwrap() += 5;

    assert_eq!(fv.get(0), Some(&6));
}

#[test]
fn from_vec_keeps_the_vector_capacity() {
    let mut v = Vec::with_capacity(10);
    v.push('x');
    v.push('y');
    let mut fv: FixedVec<char> = FixedVec::from(v);
    assert_eq!(fv.len(), 2);
    assert!(fv.capacity() >= 10);
    assert_eq!(fv.push('z'), None);
    assert_eq!(fv.get(2), Some(&'z'));
}

#[test]
fn from_boxed_slice_is_full() {
    let b: Box<[u8]> = vec![4, 5].into_boxed_slice();
    let mut fv: FixedVec<u8> = FixedVec::from(b);
    assert_eq!(fv.capacity(), 2);
    assert_eq!(fv.len(), 2);
    assert_eq!(fv.push(6), Some(6));
    assert_eq!(fv.get(1), Some(&5));
}

#[test]
fn from_uninit_box_is_empty() {
    let b: Box<[MaybeUninit<u16>]> = vec![MaybeUninit::uninit(), MaybeUninit::uninit(), MaybeUninit::uninit()].into_boxed_slice();
    let mut fv: FixedVec<u16> = FixedVec::from(b);
    assert_eq!(fv.capacity(), 3);
    assert_eq!(fv.len(), 0);
    assert_eq!(fv.push(1), None);
    assert_eq!(fv.push(2), None);
    assert_eq!(fv.push(3), None);
    assert_eq!(fv.push(4), Some(4));
}

#[test]
fn from_boxed_parts_keeps_the_first_items() {
    let b: Box<[Option<i64>]> = vec![Some(-1), Some(-2), None].into_boxed_slice();
    let mut fv = FixedVec::from_boxed_parts((b, 2));
    assert_eq!(fv.capacity(), 3);
    assert_eq!(fv.len(), 2);
    assert_eq!(fv.get(1), Some(&-2));
    assert_eq!(fv.push(-3), None);
    assert_eq!(fv.push(-4), Some(-4));
}

#[test]
fn deref_gives_the_items_as_a_slice() {
    let mut fv: FixedVec<_> = vec![1, 2, 3].into();
    assert_eq!(&fv[..], &[1, 2, 3]);
    fv[1] = 20;
    assert_eq!(&*fv, &[1, 20, 3]);
    fv[2] = 30;
    assert_eq!(fv.get(2), Some(&30));
}

#[test]
fn owned_iterator_hands_out_items_in_order() {
    let mut fv = FixedVec::new(3);
    assert_eq!(fv.push(String::from("a")), None);
    assert_eq!(fv.push(String::from("b")), None);
    let mut it: FixedVecOwnedIter<String> = fv.into_iter();
    assert_eq!(it.next(), Some(String::from("a")));
    assert_eq!(it.next(), Some(String::from("b")));
    assert_eq!(it.next(), None);
    assert_eq!(it.next(), None);
}

#[test]
fn owned_iterator_new() {
    let mut it = FixedVecOwnedIter::new(vec![3, 1, 2], 5);
    assert_eq!(it.next(), Some(3));
    assert_eq!(it.next(), Some(1));
    assert_eq!(it.next(), Some(2));
    assert_eq!(it.next(), None);
}

#[test]
fn owned_iterator_drops_what_is_left() {
    let mut fv = FixedVec::new(2);
    assert_eq!(fv.push(vec![1]), None);
    assert_eq!(fv.push(vec![2]), None);
    let mut it = fv.into_iter();
    assert_eq!(it.next(), Some(vec![1]));
    drop(it);
}

#[test]
fn ref_iterator_hands_out_references_in_order() {
    let fv: FixedVec<_> = vec![1, 2, 3].into();
    let mut it: FixedVecRefIter<'_, i32> = fv.iter();
    assert_eq!(it.next(), Some(&1));
    assert_eq!(it.next(), Some(&2));
    assert_eq!(it.next(), Some(&3));
    assert_eq!(it.next(), None);
}

#[test]
fn ref_iterator_new_stops_at_item_count() {
    let items = [10, 20, 30];
    let mut it = FixedVecRefIter::new(&items, 2);
    assert_eq!(it.next(), Some(&10));
    assert_eq!(it.next(), Some(&20));
    assert_eq!(it.next(), None);
}

#[test]
fn ref_mut_iterator_writes_through() {
    let mut fv: FixedVec<_> = vec![1, 2, 3].into();
    {
        let mut it: FixedVecRefMutIter<'_, i32> = fv.iter_mut();
        while let Some(x) = it.next() {
            *x *= 10;
        }
    }
    assert_eq!(&fv[..], &[10, 20, 30]);
}

#[test]
fn ref_mut_iterator_new_stops_at_item_count() {
    let mut items = [1, 2, 3];
    {
        let mut it = FixedVecRefMutIter::new(&mut items, 2);
        *it.next().unwrap() = 7;
        *it.next().unwrap() = 8;
        assert!(it.next().is_none());
    }
    assert_eq!(items, [7, 8, 3]);
}

#[test]
fn owned_policy_drops_every_item() {
    let mut fv = FixedVec::new(3);
    assert_eq!(fv.push(1), None);
    assert_eq!(fv.push(2), None);
    Owned::drop_fixed_vec(&mut fv);
    assert_eq!(fv.len(), 0);
    assert_eq!(fv.capacity(), 3);
}

#[test]
fn reference_policy_drops_nothing() {
    let mut slots = [Some(1), Some(2)];
    {
        let mut fv = FixedVec::new_from_slice(&mut slots, 2);
        Reference::drop_fixed_vec(&mut fv);
        assert_eq!(fv.len(), 2);
        assert_eq!(fv.get(0), Some(&1));
    }
    assert_eq!(slots, [Some(1), Some(2)]);
}

#[test]
fn zero_sized_items() {
    let mut fv = FixedVec::<()>::new(2);
    assert_eq!(fv.push(()), None);
    assert_eq!(fv.push(()), None);
    assert_eq!(fv.push(()), Some(()));
    let mut it = fv.into_iter();
    assert_eq!(it.next(), Some(()));
    assert_eq!(it.next(), Some(()));
    assert_eq!(it.next(), None);
}

#[test]
fn pop_then_push_restores_contents() {
    let mut fv: FixedVec<_> = vec![1, 2, 3].into();
    let x = fv.pop().unwrap();
    assert_eq!(fv.push(x), None);
    assert_eq!(&fv[..], &[1, 2, 3]);
}

#[test]
fn pops_undo_pushes_last_first() {
    let mut fv = FixedVec::new(5);
    assert_eq!(fv.push(0), None);
    for x in [1, 2, 3] {
        assert_eq!(fv.push(x), None);
    }
    assert_eq!(fv.pop(), Some(3));
    assert_eq!(fv.pop(), Some(2));
    assert_eq!(fv.pop(), Some(1));
    assert_eq!(&fv[..], &[0]);
}
