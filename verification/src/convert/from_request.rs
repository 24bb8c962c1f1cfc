//! Turning what an extractor found, or why it found nothing, into what a
//! handler takes: the inner value, or a failed outcome with the rejection
//! converted to the error of the handler.

use crate::resp_result::to_response::Nil;
use crate::resp_result::RespResult;
use vstd::prelude::*;
use vstd::std_specs::convert::FromSpec;

verus! {

/// An extractor that wraps one value.
pub trait ToInner {
    /// The type of the wrapped value.
    type Inner;

    /// The wrapped value.
    spec fn inner_view(self) -> Self::Inner;

    /// Unwraps the value.
    fn to_inner(self) -> (r: Self::Inner)
        ensures
            r == self.inner_view(),
    ;
}

/// A family of extractors: what stands for it in a signature, and the
/// extractor that does the work.
pub trait FromRequestFamily<E> {
    /// The extractor.
    type Payload: ToInner;
}

/// The value that an extractor of the family `T` found, for a handler whose
/// error is `E`.
pub struct MapReject<T: FromRequestFamily<E>, E>(pub <T::Payload as ToInner>::Inner);

impl<T: FromRequestFamily<E>, E> MapReject<T, E> {
    /// What the handler gets from the answer of the extractor: the inner
    /// value of what it found, or a failed outcome with its rejection
    /// converted.
    pub fn from_extraction<R>(extracted: Result<T::Payload, R>) -> (r: Result<
        MapReject<T, E>,
        RespResult<Nil, E>,
    >) where E: From<R>
        ensures
            extracted is Ok <==> r is Ok,
            r matches Ok(found) ==> found.0 == extracted->Ok_0.inner_view(),
            r matches Err(rejected) ==> {
                &&& rejected is Error
                &&& call_ensures(E::from, (extracted->Err_0,), rejected->Error_0)
                &&& <E as FromSpec<R>>::obeys_from_spec() ==> rejected->Error_0 == <E as FromSpec<
                    R,
                >>::from_spec(extracted->Err_0)
            },
    {
        match extracted {
            Ok(data) => Ok(MapReject(data.to_inner())),
            Err(err) => Err(RespResult::Error(E::from(err))),
        }
    }
}

} // verus!
