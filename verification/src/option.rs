//! Chain methods for optional values: fall back to a `Result`'s success
//! value, fall back to a default, or pair two options.

use vstd::prelude::*;

verus! {

/// What `or_ok` returns: `x` itself when it holds a value, otherwise the
/// success value of `result` (empty when `result` is a failure).
pub open spec fn or_ok_spec<T, E>(x: Option<T>, result: Result<T, E>) -> Option<T> {
    match x {
        Some(v) => Some(v),
        None => match result {
            Ok(v) => Some(v),
            Err(_) => None,
        },
    }
}

/// What `or_wrap` returns: `x` itself when it holds a value, otherwise
/// `default` wrapped as an option.
pub open spec fn or_wrap_spec<T>(x: Option<T>, default: T) -> Option<T> {
    match x {
        Some(v) => Some(v),
        None => Some(default),
    }
}

/// Extend [`core::option::Option`] with more chain methods.
pub trait OptionExt<T>: Sized {
    /// The optional value that `self` stands for.
    spec fn opt(self) -> Option<T>;

    /// Return the option if it contains a value, otherwise return the
    /// result as an option; a failure's payload is discarded.
    fn or_ok<E>(self, result: Result<T, E>) -> (r: Self)
        ensures
            r.opt() == or_ok_spec(self.opt(), result),
    ;

    /// Return the option if it contains a value, otherwise wrap the given
    /// default; the returned option is never empty.
    fn or_wrap(self, default: T) -> (r: Self)
        ensures
            r.opt() == or_wrap_spec(self.opt(), default),
            r.opt() is Some,
    ;

    /// Return the pair of inner values if both `self` and `other` contain
    /// one, otherwise return an empty option.
    fn pair<S>(self, other: Option<S>) -> (r: Option<(T, S)>)
        ensures
            r is Some <==> (self.opt() is Some && other is Some),
            r matches Some(p) ==> self.opt() == Some(p.0) && other == Some(p.1),
    ;
}

impl<T> OptionExt<T> for Option<T> {
    open spec fn opt(self) -> Option<T> {
        self
    }

    fn or_ok<E>(self, result: Result<T, E>) -> (r: Self) {
        match self {
            Some(_) => self,
            _ => result.ok(),
        }
    }

    fn or_wrap(self, default: T) -> (r: Self) {
        match self {
            Some(_) => self,
            _ => Some(default),
        }
    }

    fn pair<S>(self, other: Option<S>) -> (r: Option<(T, S)>) {
        match (self, other) {
            (Some(a), Some(b)) => Some((a, b)),
            _ => None,
        }
    }
}

/// Extend every sized type with a shorthand that wraps it in `Some`.
pub trait OptionWrapExt: Sized {
    /// Wrap `self` in an option that holds it.
    fn wrap_some(self) -> (r: Option<Self>)
        ensures
            r == Some(self),
    ;
}

impl<T: Sized> OptionWrapExt for T {
    fn wrap_some(self) -> (r: Option<Self>) {
        Some(self)
    }
}

} // verus!
