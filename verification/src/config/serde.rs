//! How the envelope is laid out: the names of its members and which of them
//! are always there.

use super::status_signed::{InnerStatusSign, SignView, StatusSign};
use vstd::prelude::*;

verus! {

/// The layout of an envelope, as the pipeline reads it.
pub struct SerdeView {
    /// the member that holds the payload
    pub body_name: Seq<char>,
    /// the member that holds the error text
    pub err_msg_name: Seq<char>,
    /// whether the members of the other outcome are written too
    pub full_field: bool,
    /// the member that marks success or failure, if there is one
    pub signed_status: Option<SignView>,
    /// the member that holds the extra message, if there is one
    pub extra_code: Option<Seq<char>>,
}

/// What a configuration says of the layout of the envelope.
pub trait SerdeConfig {
    /// The layout that this configuration asks for.
    spec fn serde_view(&self) -> SerdeView;

    /// The name of the member that holds the payload.
    fn body_name(&self) -> (r: String)
        ensures
            r@ == self.serde_view().body_name,
    ;

    /// The name of the member that holds the error text.
    fn err_msg_name(&self) -> (r: String)
        ensures
            r@ == self.serde_view().err_msg_name,
    ;

    /// Whether a success also carries the members of an error, and an error
    /// the member of the payload.
    fn full_field(&self) -> (r: bool)
        ensures
            r == self.serde_view().full_field,
    ;

    /// The member that marks success or failure, if one is wanted.
    fn signed_status(&self) -> (r: Option<StatusSign>)
        ensures
            r is Some <==> self.serde_view().signed_status is Some,
            r matches Some(sign) ==> sign@ == self.serde_view().signed_status->0,
    ;

    /// The name of the member that holds the extra message, if one is
    /// wanted.
    fn extra_message(&self) -> (r: Option<String>)
        ensures
            r is Some <==> self.serde_view().extra_code is Some,
            r matches Some(name) ==> name@ == self.serde_view().extra_code->0,
    ;
}

/// The layout of an envelope, resolved once from a configuration.
#[derive(Clone, Debug)]
pub struct InnerSerdeConfig {
    pub body_name: String,
    pub err_msg_name: String,
    pub full_field: bool,
    pub signed_status: Option<InnerStatusSign>,
    pub extra_code: Option<String>,
}

impl View for InnerSerdeConfig {
    type V = SerdeView;

    open spec fn view(&self) -> SerdeView {
        SerdeView {
            body_name: self.body_name@,
            err_msg_name: self.err_msg_name@,
            full_field: self.full_field,
            signed_status: match self.signed_status {
                Some(sign) => Some(sign@),
                None => None,
            },
            extra_code: match self.extra_code {
                Some(name) => Some(name@),
                None => None,
            },
        }
    }
}

/// How many members the envelope of a success has under `cfg`.
pub open spec fn success_field_count(cfg: SerdeView) -> nat {
    let sign: nat = if cfg.signed_status is Some {
        1
    } else {
        0
    };
    let extra: nat = if cfg.full_field && cfg.extra_code is Some {
        1
    } else {
        0
    };
    let message: nat = if cfg.full_field {
        1
    } else {
        0
    };
    sign + message + extra + 1
}

/// How many members the envelope of an error has under `cfg`.
pub open spec fn error_field_count(cfg: SerdeView) -> nat {
    let sign: nat = if cfg.signed_status is Some {
        1
    } else {
        0
    };
    let extra: nat = if cfg.extra_code is Some {
        1
    } else {
        0
    };
    let body: nat = if cfg.full_field {
        1
    } else {
        0
    };
    sign + extra + 1 + body
}

impl InnerSerdeConfig {
    /// Resolves the layout that `cfg` asks for.
    pub fn into_inner<C: SerdeConfig>(cfg: &C) -> (r: InnerSerdeConfig)
        ensures
            r@ == cfg.serde_view(),
    {
        let signed_status = match cfg.signed_status() {
            Some(sign) => Some(InnerStatusSign::from_sign(sign)),
            None => None,
        };
        InnerSerdeConfig {
            body_name: cfg.body_name(),
            err_msg_name: cfg.err_msg_name(),
            full_field: cfg.full_field(),
            signed_status,
            extra_code: cfg.extra_message(),
        }
    }

    /// The number of members in the envelope of a success, then in that of
    /// an error.
    pub fn get_field_size(&self) -> (r: (usize, usize))
        ensures
            r.0 == success_field_count(self@),
            r.1 == error_field_count(self@),
    {
        let mut ok_size: usize = 1;
        let mut err_size: usize = 1;
        if self.full_field {
            ok_size += 1;
            err_size += 1;
        }
        if self.signed_status.is_some() {
            ok_size += 1;
            err_size += 1;
        }
        if self.extra_code.is_some() {
            if self.full_field {
                ok_size += 1;
            }
            err_size += 1;
        }
        (ok_size, err_size)
    }
}

} // verus!
