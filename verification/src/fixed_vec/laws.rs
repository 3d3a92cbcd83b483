use vstd::prelude::*;

use crate::fixed_vec::pop_outcome;
use crate::fixed_vec::push_outcome;
use crate::fixed_vec::iterators::owned_iter::next_outcome;
use crate::fixed_vec::owner_tag::Owned;
use crate::fixed_vec::FixedVec;

verus! {

/// The contents after pushing each of `items` in turn, first to last.
pub open spec fn push_each<T>(contents: Seq<T>, capacity: nat, items: Seq<T>) -> Seq<T>
    decreases items.len(),
{
    if items.len() == 0 {
        contents
    } else {
        push_outcome(push_each(contents, capacity, items.drop_last()), capacity, items.last()).0
    }
}

/// Pops `n` times: the contents left, and the items handed out, in the order
/// they came.
pub open spec fn pop_times<T>(contents: Seq<T>, n: nat) -> (Seq<T>, Seq<T>)
    decreases n,
{
    if n == 0 {
        (contents, Seq::empty())
    } else {
        let (left, taken) = pop_times(contents, (n - 1) as nat);
        match pop_outcome(left).1 {
            Some(item) => (pop_outcome(left).0, taken.push(item)),
            None => (left, taken),
        }
    }
}

/// Popping right after a push that found room gives back the pushed item and
/// leaves the vector as it was before the push.
pub proof fn push_then_pop<T>(contents: Seq<T>, capacity: nat, item: T)
    requires
        contents.len() < capacity,
    ensures
        push_outcome(contents, capacity, item).1 is None,
        pop_outcome(push_outcome(contents, capacity, item).0) == (contents, Some(item)),
{
    assert(contents.push(item).drop_last() =~= contents);
}

/// Pushing back the item that a pop took restores the vector, and the push
/// finds room.
pub proof fn pop_then_push<T>(contents: Seq<T>, capacity: nat)
    requires
        0 < contents.len() <= capacity,
    ensures
        pop_outcome(contents).1 is Some,
        push_outcome(pop_outcome(contents).0, capacity, pop_outcome(contents).1->0) == (contents, None::<T>),
{
    assert(contents.drop_last().push(contents.last()) =~= contents);
}

/// A push never takes the vector past its capacity; on a full vector it hands
/// the item back and changes nothing.
pub proof fn push_keeps_capacity<T>(contents: Seq<T>, capacity: nat, item: T)
    requires
        contents.len() <= capacity,
    ensures
        push_outcome(contents, capacity, item).0.len() <= capacity,
        contents.len() == capacity ==> push_outcome(contents, capacity, item) == (contents, Some(item)),
{
}

/// Items pushed one after another, while they fit, land at the back in the
/// order they were pushed.
pub proof fn push_each_appends<T>(contents: Seq<T>, capacity: nat, items: Seq<T>)
    requires
        contents.len() + items.len() <= capacity,
    ensures
        push_each(contents, capacity, items) == contents + items,
    decreases items.len(),
{
    if items.len() > 0 {
        push_each_appends(contents, capacity, items.drop_last());
        assert((contents + items.drop_last()).push(items.last()) =~= contents + items);
    } else {
        assert(contents + items =~= contents);
    }
}

/// Popping as many times as items were pushed hands them back last first and
/// leaves the vector as it was.
pub proof fn pops_undo_pushes<T>(contents: Seq<T>, capacity: nat, items: Seq<T>)
    requires
        contents.len() + items.len() <= capacity,
    ensures
        pop_times(push_each(contents, capacity, items), items.len()) == (contents, items.reverse()),
{
    push_each_appends(contents, capacity, items);
    pop_times_from_back(contents, items, items.len());
    assert(items.subrange(0, 0) =~= Seq::<T>::empty());
    assert(contents + Seq::<T>::empty() =~= contents);
    assert(items.skip(0) =~= items);
}

/// Popping `n` times from `contents + items`, with `n` no more than the
/// number of `items`, takes the last `n` of them, last first.
proof fn pop_times_from_back<T>(contents: Seq<T>, items: Seq<T>, n: nat)
    requires
        n <= items.len(),
    ensures
        pop_times(contents + items, n)
            == (contents + items.subrange(0, items.len() - n), items.skip(items.len() - n).reverse()),
    decreases n,
{
    if n > 0 {
        pop_times_from_back(contents, items, (n - 1) as nat);
        let k = items.len() - n;
        let left = contents + items.subrange(0, k + 1);
        assert(left.len() > 0);
        assert(left.last() == items[k]);
        assert(left.drop_last() =~= contents + items.subrange(0, k));
        assert(items.skip(k + 1).reverse().push(items[k]) =~= items.skip(k).reverse());
    } else {
        assert(items.subrange(0, items.len() as int) =~= items);
        assert(items.skip(items.len() as int).reverse() =~= Seq::<T>::empty());
    }
}

/// Asks for the next item `n` times: the items left, and the items handed
/// out, in the order they came.
pub open spec fn next_times<T>(rest: Seq<T>, n: nat) -> (Seq<T>, Seq<T>)
    decreases n,
{
    if n == 0 {
        (rest, Seq::empty())
    } else {
        let (left, given) = next_times(rest, (n - 1) as nat);
        match next_outcome(left).1 {
            Some(item) => (next_outcome(left).0, given.push(item)),
            None => (left, given),
        }
    }
}

/// An iterator hands out its items first to last; asked more often than it
/// has items, it hands out each of them once and then nothing.
pub proof fn iterator_hands_out_in_order<T>(rest: Seq<T>, n: nat)
    ensures
        n <= rest.len() ==> next_times(rest, n) == (rest.skip(n as int), rest.take(n as int)),
        n > rest.len() ==> next_times(rest, n) == (Seq::<T>::empty(), rest),
    decreases n,
{
    if n > 0 {
        iterator_hands_out_in_order(rest, (n - 1) as nat);
        if n <= rest.len() {
            assert(rest.skip(n - 1).drop_first() =~= rest.skip(n as int));
            assert(rest.take(n - 1).push(rest[n - 1]) =~= rest.take(n as int));
        } else if n - 1 == rest.len() {
            assert(rest.skip(rest.len() as int) =~= Seq::<T>::empty());
            assert(rest.take(rest.len() as int) =~= rest);
        }
    } else {
        assert(rest.skip(0) =~= rest);
        assert(rest.take(0) =~= Seq::<T>::empty());
    }
}

/// Turning a `Vec` into a vector and the vector back into a `Vec` gives back
/// that very `Vec`: the same items in the same allocation, with the same
/// capacity. `from` keeps the `Vec` as the vector's storage and `to_vec` hands
/// the storage back.
pub proof fn vec_round_trip<T>(v: Vec<T>, fv: FixedVec<T, Owned>, back: Vec<T>)
    requires
        fv.owned_storage() == v,
        back == fv.owned_storage(),
    ensures
        back == v,
        back@ == fv@,
{
}

} // verus!
