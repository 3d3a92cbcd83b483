pub mod owned_iter;
pub mod ref_iter;
pub mod ref_mut_iter;
