//! Chain methods for nested results: exchange the inner and the outer
//! failure layer, or squeeze the two layers into one.

use vstd::prelude::*;

verus! {

/// Declares [`either::Either`], the two-variant tagged union that
/// `squeeze` uses to keep the outer and the inner failure apart.
#[verifier::external_type_specification]
pub struct ExEither<L, R>(either::Either<L, R>);

/// What `transpose` returns: the same three-state value with the other
/// failure layer outermost.
pub open spec fn transpose_spec<T, E, EI>(x: Result<Result<T, EI>, E>) -> Result<Result<T, E>, EI> {
    match x {
        Ok(Ok(value)) => Ok(Ok(value)),
        Ok(Err(err)) => Err(err),
        Err(err) => Ok(Err(err)),
    }
}

/// What `squeeze` returns: the success value, or whichever failure was
/// present, tagged with the layer it came from.
pub open spec fn squeeze_spec<T, E, EI>(x: Result<Result<T, EI>, E>) -> Result<T, either::Either<E, EI>> {
    match x {
        Ok(Ok(value)) => Ok(value),
        Ok(Err(err)) => Err(either::Either::Right(err)),
        Err(err) => Err(either::Either::Left(err)),
    }
}

/// Extend a nested [`core::result::Result`] with more chain methods.
pub trait ResultExt<T, E, EI>: Sized {
    /// The nested result that `self` stands for.
    spec fn nested(self) -> Result<Result<T, EI>, E>;

    /// Exchange the inner err and the outer err.
    fn transpose(self) -> (r: Result<Result<T, E>, EI>)
        ensures
            r == transpose_spec(self.nested()),
    ;

    /// Squeeze the nested result by unionising the inner err and the
    /// outer err.
    fn squeeze(self) -> (r: Result<T, either::Either<E, EI>>)
        ensures
            r == squeeze_spec(self.nested()),
    ;
}

impl<T, E, EI> ResultExt<T, E, EI> for Result<Result<T, EI>, E> {
    open spec fn nested(self) -> Result<Result<T, EI>, E> {
        self
    }

    fn transpose(self) -> (r: Result<Result<T, E>, EI>) {
        match self {
            Ok(Ok(value)) => Ok(Ok(value)),
            Ok(Err(err)) => Err(err),
            Err(err) => Ok(Err(err)),
        }
    }

    fn squeeze(self) -> (r: Result<T, either::Either<E, EI>>) {
        match self {
            Ok(Ok(value)) => Ok(value),
            Ok(Err(err)) => Err(either::Either::Right(err)),
            Err(err) => Err(either::Either::Left(err)),
        }
    }
}

/// Exchanging the layers twice reconstructs the original nested result,
/// whichever of its three states it is in.
pub proof fn lemma_transpose_round_trip<T, E, EI>(x: Result<Result<T, EI>, E>)
    ensures
        transpose_spec(transpose_spec(x)) == x,
{
}

/// Extend every sized type with a shorthand that wraps it in `Ok`.
pub trait ResultWrapExt: Sized {
    /// Wrap `self` in a result that holds it as the success value.
    fn wrap_ok<E>(self) -> (r: Result<Self, E>)
        ensures
            r == Result::<Self, E>::Ok(self),
    ;
}

impl<T: Sized> ResultWrapExt for T {
    fn wrap_ok<E>(self) -> (r: Result<Self, E>) {
        Ok(self)
    }
}

} // verus!
