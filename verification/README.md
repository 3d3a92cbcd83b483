# fixed_vec

A vector whose capacity is fixed when it is made. Pushing onto a full vector
hands the item back instead of growing the storage. A vector either owns its
items (`Owned`, kept in a `Vec` of its own) or works in place in slots lent to
it (`Reference`, kept in `&mut [Option<T>]`, where `None` is an empty slot);
what a borrowing vector holds when the borrow ends stays in the lender's slots.

Layout:

- `src/fixed_vec.rs`: `FixedVec`, its constructors, conversions and operations,
  with contracts over the items as a sequence (`@`) and the capacity.
- `src/fixed_vec/owner_tag.rs`: the `StoragePolicy` and `DropPolicy` traits and
  the two policies.
- `src/fixed_vec/iterators/`: iterators that hand out the items by value, by
  reference and by mutable reference.
- `src/fixed_vec/laws.rs`: proved laws relating pushes, pops and iteration.
- `tests/`: scenarios run against the compiled library.
