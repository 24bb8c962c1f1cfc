//! The outcome of a handler: a success payload or an error.

pub mod serde;
pub mod to_response;
pub mod try_op;

use crate::extra_flag::effect::{BodyEffect, Effects, HeaderMapFull};
use crate::extra_flag::{ExtraFlags, FlagWrap};
use crate::headers::Headers;
use crate::resp_body::RespBody;
use crate::resp_error::RespError;
use crate::status::StatusCode;
use http::header::{HeaderMap, HeaderValue};
use vstd::prelude::*;

verus! {

/// What a handler returns.
#[derive(Debug)]
pub enum RespResult<T, E> {
    /// the handler succeeded, with this payload
    Success(T),
    /// the handler failed, with this error
    Error(E),
}

impl<T, E> RespResult<T, E> {
    /// A success with the payload `data`.
    pub fn ok(data: T) -> (r: RespResult<T, E>)
        ensures
            r == RespResult::<T, E>::Success(data),
    {
        RespResult::Success(data)
    }

    /// A failure with the error `err`.
    pub fn err(err: E) -> (r: RespResult<T, E>)
        ensures
            r == RespResult::<T, E>::Error(err),
    {
        RespResult::Error(err)
    }

    /// The same outcome, a success carrying `flags` beside its payload. An
    /// error carries none.
    pub fn with_flags(self, flags: ExtraFlags) -> (r: RespResult<FlagWrap<T>, E>)
        ensures
            r == (match self {
                RespResult::Success(data) => RespResult::<FlagWrap<T>, E>::Success(
                    FlagWrap { inner: data, flags },
                ),
                RespResult::Error(err) => RespResult::<FlagWrap<T>, E>::Error(err),
            }),
    {
        match self {
            RespResult::Success(data) => RespResult::Success(FlagWrap::new(data, flags)),
            RespResult::Error(err) => RespResult::Error(err),
        }
    }

    /// The plain result that says the same.
    pub fn into_result(self) -> (r: Result<T, E>)
        ensures
            r == (match self {
                RespResult::Success(data) => Ok::<T, E>(data),
                RespResult::Error(err) => Err::<T, E>(err),
            }),
    {
        match self {
            RespResult::Success(data) => Ok(data),
            RespResult::Error(err) => Err(err),
        }
    }
}

impl<T, E> From<Result<T, E>> for RespResult<T, E> {
    fn from(result: Result<T, E>) -> (r: RespResult<T, E>) {
        match result {
            Ok(data) => RespResult::Success(data),
            Err(err) => RespResult::Error(err),
        }
    }
}

impl<T, E> vstd::std_specs::convert::FromSpecImpl<Result<T, E>> for RespResult<T, E> {
    open spec fn obeys_from_spec() -> bool {
        true
    }

    open spec fn from_spec(result: Result<T, E>) -> RespResult<T, E> {
        match result {
            Ok(data) => RespResult::Success(data),
            Err(err) => RespResult::Error(err),
        }
    }
}

impl<T, E> Effects for RespResult<T, E> where T: RespBody, E: RespError {
    open spec fn clears_body(&self) -> bool {
        match self {
            RespResult::Success(body) => body.clears_body(),
            RespResult::Error(_) => false,
        }
    }

    open spec fn status_override(&self) -> Option<StatusCode> {
        match self {
            RespResult::Success(body) => body.status_override(),
            RespResult::Error(_) => None,
        }
    }

    open spec fn headers_after(&self, before: Headers) -> Headers {
        match self {
            RespResult::Success(body) => body.headers_after(before),
            RespResult::Error(_) => before,
        }
    }

    open spec fn headers_fit(&self, before: Headers) -> bool {
        match self {
            RespResult::Success(body) => body.headers_fit(before),
            RespResult::Error(_) => true,
        }
    }

    fn body_effect(&self, body: &mut Vec<u8>) -> (r: BodyEffect) {
        match self {
            RespResult::Success(b) => b.body_effect(body),
            RespResult::Error(_) => BodyEffect::Continue,
        }
    }

    fn status_effect(&self) -> (r: Option<StatusCode>) {
        match self {
            RespResult::Success(b) => b.status_effect(),
            RespResult::Error(_) => None,
        }
    }

    fn headers_effect(&self, header_map: &mut HeaderMap<HeaderValue>) -> (r: Result<
        (),
        HeaderMapFull,
    >)
        ensures
            self is Error ==> r is Ok,
    {
        match self {
            RespResult::Success(b) => b.headers_effect(header_map),
            RespResult::Error(_) => Ok(()),
        }
    }
}

} // verus!
