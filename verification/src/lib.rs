//! Chain-style extension methods for everyday types.
//!
//! Each module extends an existing type with a handful of convenience
//! operations: composing an `Option` with a fallback, reshaping a nested
//! `Result`, decoding a byte slice as JSON or YAML, or constructing a
//! GridFS bucket from a database handle.

use vstd::prelude::*;

pub mod gridfs;
pub mod io;
pub mod option;
pub mod result;

verus! {

/// Extend every sized type with `apply`, which hands the value to a
/// caller-supplied function and returns whatever that function returns.
pub trait Apply: Sized {
    /// Apply `f` to `self`, chain style.
    fn apply<F, R>(self, f: F) -> (r: R) where F: FnOnce(Self) -> R
        requires
            call_requires(f, (self,)),
        ensures
            call_ensures(f, (self,), r),
    ;
}

impl<T: Sized> Apply for T {
    fn apply<F, R>(self, f: F) -> (r: R) where F: FnOnce(Self) -> R {
        f(self)
    }
}

} // verus!
