mod fixed_vec;

pub use fixed_vec::BorrowedSlots;
pub use fixed_vec::FixedVec;
pub use fixed_vec::iterators::owned_iter::FixedVecOwnedIter;
pub use fixed_vec::iterators::ref_iter::FixedVecRefIter;
pub use fixed_vec::iterators::ref_mut_iter::FixedVecRefMutIter;
pub use fixed_vec::laws;
pub use fixed_vec::owner_tag::DropPolicy;
pub use fixed_vec::owner_tag::Owned;
pub use fixed_vec::owner_tag::Reference;
pub use fixed_vec::owner_tag::StoragePolicy;
