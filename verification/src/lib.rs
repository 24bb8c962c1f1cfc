//! Uniform request-handler outcomes for an HTTP service.
//!
//! A handler returns one [`RespResult`]: a success payload or a typed error.
//! One pipeline turns that value into status, headers and a JSON envelope
//! whose fields follow a configuration.
//!
//! - [`resp_result`]: the outcome, how it leaves a function early, its
//!   envelope and the assembly of the response.
//! - [`resp_error`]: what an error says of itself.
//! - [`resp_body`] and [`extra_flag`]: what a payload renders as, and how it
//!   changes status, headers and body.
//! - [`config`]: the layout of the envelope, resolved once.
//! - [`derive_resp_error`]: the text of the error contract of an enum, from
//!   what its variants declare.
//! - [`json`], [`headers`], [`status`]: JSON text, the header map of `http`,
//!   status codes.
//!
//! Every function states what it returns. What is said of other crates is
//! stated where they are called and is taken on trust: see [`headers`] and
//! [`json`].

pub mod config;
pub mod convert;
pub mod derive_resp_error;
pub mod expect_ext;
pub mod extra_flag;
pub mod headers;
pub mod json;
pub mod resp_body;
pub mod resp_error;
pub mod resp_result;
pub mod status;

pub use config::{ConfigTrait, DefaultConfig, RespConfig, SerdeConfig, SignType, StatusSign};
pub use extra_flag::{BodyEffect, Effects, ExtraFlag, ExtraFlags, HeaderType, PlainBody};
pub use resp_body::{LoadSerde, RespBody};
pub use resp_error::{ExtraValue, PlainError, RespError};
pub use resp_result::serde::{RespSerialize, SerializeWrap};
pub use resp_result::to_response::{Nil, PrepareRespond, RespondError};
pub use resp_result::try_op::FromResidual;
pub use resp_result::RespResult;
pub use status::StatusCode;
