//! What the assembly of a response reads from the configuration.

use crate::headers::header_name_bytes;
use http::header::HeaderName;
use vstd::prelude::*;

verus! {

/// The options of the assembly, as it reads them.
pub struct RespView {
    /// the header that carries the extra message of an error, if there is
    /// one, by the bytes of its name
    pub extra_code: Option<Seq<u8>>,
}

/// What a configuration says of the assembly of a response.
pub trait RespConfig {
    /// The options that this configuration asks for.
    spec fn resp_view(&self) -> RespView;

    /// The header that carries the extra message of an error, if one is
    /// wanted.
    fn head_extra_code(&self) -> (r: Option<HeaderName>)
        ensures
            r is Some <==> self.resp_view().extra_code is Some,
            r matches Some(name) ==> header_name_bytes(name) == self.resp_view().extra_code->0,
    ;
}

/// The options of the assembly, resolved once from a configuration.
#[derive(Clone, Debug)]
pub struct InnerRespConfig {
    pub extra_code: Option<HeaderName>,
}

impl View for InnerRespConfig {
    type V = RespView;

    open spec fn view(&self) -> RespView {
        RespView {
            extra_code: match self.extra_code {
                Some(name) => Some(header_name_bytes(name)),
                None => None,
            },
        }
    }
}

impl InnerRespConfig {
    /// Resolves the options that `cfg` asks for.
    pub fn into_inner<C: RespConfig>(cfg: &C) -> (r: InnerRespConfig)
        ensures
            r@ == cfg.resp_view(),
    {
        InnerRespConfig { extra_code: cfg.head_extra_code() }
    }

    /// The header that carries the extra message, if there is one.
    pub fn extra_header(&self) -> (r: Option<HeaderName>)
        ensures
            r is Some <==> self@.extra_code is Some,
            r matches Some(name) ==> header_name_bytes(name) == self@.extra_code->0,
    {
        match &self.extra_code {
            Some(name) => Some(name.clone()),
            None => None,
        }
    }
}

} // verus!
