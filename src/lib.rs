//! A structure-preserving `fmap` for containers, with the element type free to change.

pub mod functor;
pub mod laws;
