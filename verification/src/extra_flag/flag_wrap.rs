//! A payload together with the directives that go with it.

use super::effect::{headers_cut_short, BodyEffect, Effects, HeaderMapFull};
use super::flags::ExtraFlags;
use crate::headers::{header_map_values, Headers};
use crate::json::SerializeError;
use crate::resp_body::LoadSerde;
use crate::status::StatusCode;
use http::header::{HeaderMap, HeaderValue};
use vstd::prelude::*;

verus! {

/// A payload and the directives that change the response around it.
#[derive(Debug)]
pub struct FlagWrap<T> {
    pub inner: T,
    pub flags: ExtraFlags,
}

impl<T> FlagWrap<T> {
    /// `data` with `flags`.
    pub fn new(data: T, flags: ExtraFlags) -> (r: FlagWrap<T>)
        ensures
            r.inner == data,
            r.flags == flags,
    {
        FlagWrap { inner: data, flags }
    }
}

impl<T: LoadSerde> LoadSerde for FlagWrap<T> {
    open spec fn renders(&self) -> bool {
        self.inner.renders()
    }

    open spec fn json_view(&self) -> Seq<u8> {
        self.inner.json_view()
    }

    fn load_serde(&self) -> (r: Result<Vec<u8>, SerializeError>) {
        self.inner.load_serde()
    }
}

impl<T> Effects for FlagWrap<T> {
    open spec fn clears_body(&self) -> bool {
        self.flags.clears_body()
    }

    open spec fn status_override(&self) -> Option<StatusCode> {
        self.flags.status_override()
    }

    open spec fn headers_after(&self, before: Headers) -> Headers {
        self.flags.headers_after(before)
    }

    open spec fn headers_fit(&self, before: Headers) -> bool {
        self.flags.headers_fit(before)
    }

    fn body_effect(&self, body: &mut Vec<u8>) -> (r: BodyEffect) {
        self.flags.body_effect(body)
    }

    fn status_effect(&self) -> (r: Option<StatusCode>) {
        self.flags.status_effect()
    }

    fn headers_effect(&self, header_map: &mut HeaderMap<HeaderValue>) -> (r: Result<
        (),
        HeaderMapFull,
    >)
        ensures
            r is Err ==> headers_cut_short(
                self.flags@,
                header_map_values(*old(header_map)),
                header_map_values(*final(header_map)),
            ),
    {
        self.flags.headers_effect(header_map)
    }
}

} // verus!
