//! The propagation capability: decompose into, and rebuild from, the
//! canonical two-variant form.

use vstd::prelude::*;
use crate::my_result::MyResult;

verus! {

/// A capability for any "result-like" type: it can be decomposed into
/// the canonical `MyResult` form and rebuilt from a bare success value
/// or a bare failure payload.
///
/// The spec function `try_view` is the type's canonical decomposition;
/// the three executable operations are pinned to it, so the short-circuit
/// propagation pattern (match on `into_result`, early-return the rebuilt
/// failure) is fully determined by `try_view`.
pub trait MyTry: Sized {
    type OkType;

    type ErrType;

    /// The canonical two-variant decomposition of `self`.
    spec fn try_view(self) -> MyResult<Self::OkType, Self::ErrType>;

    /// Consumes `self`; returns exactly its canonical decomposition.
    fn into_result(self) -> (r: MyResult<Self::OkType, Self::ErrType>)
        ensures
            r == self.try_view(),
    ;

    /// Builds the instance whose decomposition is `Success(v)`.
    fn from_ok(v: Self::OkType) -> (r: Self)
        ensures
            r.try_view() == MyResult::<Self::OkType, Self::ErrType>::Success(v),
    ;

    /// Builds the instance whose decomposition is `Failure(e)`.
    fn from_err(e: Self::ErrType) -> (r: Self)
        ensures
            r.try_view() == MyResult::<Self::OkType, Self::ErrType>::Failure(e),
    ;
}

impl<T, E> MyTry for MyResult<T, E> {
    type OkType = T;

    type ErrType = E;

    open spec fn try_view(self) -> MyResult<T, E> {
        self
    }

    fn into_result(self) -> (r: MyResult<T, E>) {
        self
    }

    fn from_ok(v: T) -> (r: Self) {
        MyResult::Success(v)
    }

    fn from_err(e: E) -> (r: Self) {
        MyResult::Failure(e)
    }
}

} // verus!
