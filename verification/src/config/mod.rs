//! The configuration of the pipeline: how the envelope is laid out and what
//! the assembly of a response adds.
//!
//! A configuration is resolved once into an [`InnerConfig`], which is handed
//! to whatever serializes or assembles.

mod resp;
mod serde;
mod slot;
mod status_signed;

pub use self::resp::{InnerRespConfig, RespConfig, RespView};
pub use self::serde::{
    error_field_count, success_field_count, InnerSerdeConfig, SerdeConfig, SerdeView,
};
pub use self::slot::{
    default_view, slot_read, slot_set, ConfigSlot, ConfigView, SlotView,
};
pub use self::status_signed::{InnerStatusSign, SignType, SignView, StatusSign};
use http::header::HeaderName;
use vstd::prelude::*;
use vstd::string::StringExecFns;

verus! {

/// A whole configuration: the layout of the envelope and the options of the
/// assembly.
pub trait ConfigTrait: Sync + 'static where Self: SerdeConfig, Self: RespConfig {

}

/// A configuration, resolved.
#[derive(Clone, Debug)]
pub struct InnerConfig {
    pub serde: InnerSerdeConfig,
    pub resp: InnerRespConfig,
}

impl Default for InnerConfig {
    fn default() -> (r: InnerConfig)
        ensures
            r.serde@ == DefaultConfig.serde_view(),
            r.resp@ == DefaultConfig.resp_view(),
    {
        InnerConfig::from_cfg(&DefaultConfig)
    }
}

impl InnerConfig {
    /// Resolves `cfg`.
    pub fn from_cfg<C: ConfigTrait>(cfg: &C) -> (r: InnerConfig)
        ensures
            r.serde@ == cfg.serde_view(),
            r.resp@ == cfg.resp_view(),
    {
        InnerConfig {
            serde: InnerSerdeConfig::into_inner(cfg),
            resp: InnerRespConfig::into_inner(cfg),
        }
    }
}

/// The configuration that sets nothing: the payload under `data`, the error
/// text under `msg`, and no other member or header.
pub struct DefaultConfig;

impl SerdeConfig for DefaultConfig {
    open spec fn serde_view(&self) -> SerdeView {
        SerdeView {
            body_name: "data"@,
            err_msg_name: "msg"@,
            full_field: false,
            signed_status: None,
            extra_code: None,
        }
    }

    fn body_name(&self) -> (r: String) {
        String::from_str("data")
    }

    fn err_msg_name(&self) -> (r: String) {
        String::from_str("msg")
    }

    fn full_field(&self) -> (r: bool) {
        false
    }

    fn signed_status(&self) -> (r: Option<StatusSign>) {
        None
    }

    fn extra_message(&self) -> (r: Option<String>) {
        None
    }
}

impl RespConfig for DefaultConfig {
    open spec fn resp_view(&self) -> RespView {
        RespView { extra_code: None }
    }

    fn head_extra_code(&self) -> (r: Option<HeaderName>) {
        None
    }
}

impl ConfigTrait for DefaultConfig {

}

} // verus!
