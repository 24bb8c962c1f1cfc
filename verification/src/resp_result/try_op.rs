//! Leaving a handler early: an outcome either goes on with its payload or
//! ends the function with its error, converted to the error of that
//! function.

use super::RespResult;
use core::convert::Infallible;
use core::ops::ControlFlow;
use vstd::pervasive::unreached;
use vstd::prelude::*;
use vstd::std_specs::convert::FromSpec;

verus! {

/// What is left of an outcome that ended a function: a residual can be got
/// from it and be turned into the outcome of the function.
pub trait FromResidual<R>: Sized {
    /// Whether `residual` carries an error. A residual that was got from an
    /// outcome always does.
    spec fn is_failure(residual: R) -> bool;

    /// The outcome that ends the function: the error of `residual`,
    /// converted.
    fn from_residual(residual: R) -> (r: Self)
        requires
            Self::is_failure(residual),
    ;
}

impl<T, E> RespResult<T, E> {
    /// The outcome of a function that reached its end with `output`.
    pub fn from_output(output: T) -> (r: RespResult<T, E>)
        ensures
            r == RespResult::<T, E>::Success(output),
    {
        RespResult::Success(output)
    }

    /// What `branch` gives: to go on with the payload of a success, or to
    /// break with the error of a failure.
    pub open spec fn branch_spec(self) -> ControlFlow<RespResult<Infallible, E>, T> {
        match self {
            RespResult::Success(data) => ControlFlow::Continue(data),
            RespResult::Error(e) => ControlFlow::Break(RespResult::Error(e)),
        }
    }

    /// Tells whether the function goes on or ends here.
    pub fn branch(self) -> (r: ControlFlow<RespResult<Infallible, E>, T>)
        ensures
            r == self.branch_spec(),
    {
        match self {
            RespResult::Success(data) => ControlFlow::Continue(data),
            RespResult::Error(e) => ControlFlow::Break(RespResult::Error(e)),
        }
    }
}

/// The outcome that ends a function whose error is `E`, from the residual
/// of an outcome: the failure that carries its error, converted.
pub open spec fn residual_outcome<T, E, Ei>(residual: RespResult<Infallible, Ei>) -> RespResult<
    T,
    E,
> where E: From<Ei> {
    RespResult::Error(<E as FromSpec<Ei>>::from_spec(residual->Error_0))
}

/// The outcome that ends a function whose error is `F`, from the residual
/// of a plain result: the failure that carries its error, converted.
pub open spec fn plain_residual_outcome<T, E, F>(residual: Result<Infallible, E>) -> RespResult<
    T,
    F,
> where F: From<E> {
    RespResult::Error(<F as FromSpec<E>>::from_spec(residual->Err_0))
}

/// The plain result that ends a function whose error is `F`, from the
/// residual of an outcome: the failure that carries its error, converted.
pub open spec fn residual_result<T, E, F>(residual: RespResult<Infallible, E>) -> Result<
    T,
    F,
> where F: From<E> {
    Err(<F as FromSpec<E>>::from_spec(residual->Error_0))
}

/// Leaving early converts. A success lets the function go on with its
/// payload. A failure ends it: its residual carries an error, and what is
/// made of that residual, an outcome or a plain result, is the failure that
/// carries the error of the first, converted to the error of the function.
pub proof fn lemma_propagation<T, U, E, Ei>(outcome: RespResult<T, Ei>) where E: From<Ei>
    ensures
        outcome matches RespResult::Success(data) ==> outcome.branch_spec() == ControlFlow::<
            RespResult<Infallible, Ei>,
            T,
        >::Continue(data),
        outcome matches RespResult::Error(e) ==> {
            &&& outcome.branch_spec() matches ControlFlow::Break(residual)
            &&& residual is Error
            &&& residual_outcome::<U, E, Ei>(residual) == RespResult::<U, E>::Error(
                <E as FromSpec<Ei>>::from_spec(e),
            )
            &&& residual_result::<U, Ei, E>(residual) == Err::<U, E>(
                <E as FromSpec<Ei>>::from_spec(e),
            )
        },
{
}

/// A plain failure ends a function that returns an outcome in the same
/// way: with the failure that carries its error, converted.
pub proof fn lemma_plain_propagation<U, E, Ei>(failed: Result<Infallible, Ei>) where E: From<Ei>
    requires
        failed is Err,
    ensures
        plain_residual_outcome::<U, Ei, E>(failed) == RespResult::<U, E>::Error(
            <E as FromSpec<Ei>>::from_spec(failed->Err_0),
        ),
{
}

impl<T, E, Ei> FromResidual<RespResult<Infallible, Ei>> for RespResult<T, E> where E: From<Ei> {
    open spec fn is_failure(residual: RespResult<Infallible, Ei>) -> bool {
        residual is Error
    }

    fn from_residual(residual: RespResult<Infallible, Ei>) -> (r: RespResult<T, E>)
        ensures
            r is Error,
            call_ensures(E::from, (residual->Error_0,), r->Error_0),
            <E as FromSpec<Ei>>::obeys_from_spec() ==> r == residual_outcome::<T, E, Ei>(residual),
    {
        match residual {
            RespResult::Error(e) => RespResult::Error(E::from(e)),
            RespResult::Success(_) => unreached(),
        }
    }
}

impl<T, E, F> FromResidual<Result<Infallible, E>> for RespResult<T, F> where F: From<E> {
    open spec fn is_failure(residual: Result<Infallible, E>) -> bool {
        residual is Err
    }

    fn from_residual(residual: Result<Infallible, E>) -> (r: RespResult<T, F>)
        ensures
            r is Error,
            call_ensures(F::from, (residual->Err_0,), r->Error_0),
            <F as FromSpec<E>>::obeys_from_spec() ==> r == plain_residual_outcome::<T, E, F>(
                residual,
            ),
    {
        match residual {
            Err(e) => RespResult::Error(F::from(e)),
            Ok(_) => unreached(),
        }
    }
}

impl<T, E, F> FromResidual<RespResult<Infallible, E>> for Result<T, F> where F: From<E> {
    open spec fn is_failure(residual: RespResult<Infallible, E>) -> bool {
        residual is Error
    }

    fn from_residual(residual: RespResult<Infallible, E>) -> (r: Result<T, F>)
        ensures
            r is Err,
            call_ensures(F::from, (residual->Error_0,), r->Err_0),
            <F as FromSpec<E>>::obeys_from_spec() ==> r == residual_result::<T, E, F>(residual),
    {
        match residual {
            RespResult::Error(err) => Err(F::from(err)),
            RespResult::Success(_) => unreached(),
        }
    }
}

} // verus!
