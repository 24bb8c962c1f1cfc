//! The member of an envelope that says whether it holds a success or an
//! error.

use crate::json::{FieldValue, FieldValueView};
use vstd::prelude::*;

verus! {

/// The pair of values that marks success and failure.
#[derive(Clone, Debug)]
#[allow(inconsistent_fields)]
pub enum SignType {
    /// `true` on success, `false` on failure
    Bool,
    /// `false` on success, `true` on failure
    BoolRevert,
    /// one number on success, another on failure
    Number { on_ok: u8, on_fail: u8 },
    /// one string on success, another on failure
    Str { on_ok: String, on_fail: String },
}

impl SignType {
    /// The value that marks a success.
    pub open spec fn ok_view(&self) -> FieldValueView {
        match self {
            SignType::Bool => FieldValueView::Bool(true),
            SignType::BoolRevert => FieldValueView::Bool(false),
            SignType::Number { on_ok, on_fail } => FieldValueView::Number(*on_ok),
            SignType::Str { on_ok, on_fail } => FieldValueView::Text(on_ok@),
        }
    }

    /// The value that marks a failure.
    pub open spec fn err_view(&self) -> FieldValueView {
        match self {
            SignType::Bool => FieldValueView::Bool(false),
            SignType::BoolRevert => FieldValueView::Bool(true),
            SignType::Number { on_ok, on_fail } => FieldValueView::Number(*on_fail),
            SignType::Str { on_ok, on_fail } => FieldValueView::Text(on_fail@),
        }
    }

    /// The two values, that of success first.
    pub fn into_values(self) -> (r: (FieldValue, FieldValue))
        ensures
            r.0@ == self.ok_view(),
            r.1@ == self.err_view(),
    {
        match self {
            SignType::Bool => (FieldValue::Bool(true), FieldValue::Bool(false)),
            SignType::BoolRevert => (FieldValue::Bool(false), FieldValue::Bool(true)),
            SignType::Number { on_ok, on_fail } => (
                FieldValue::Number(on_ok),
                FieldValue::Number(on_fail),
            ),
            SignType::Str { on_ok, on_fail } => (FieldValue::Text(on_ok), FieldValue::Text(on_fail)),
        }
    }
}

/// What a configuration says of the status member: its name and its values.
#[derive(Clone, Debug)]
pub struct StatusSign {
    pub field_name: String,
    pub ty: SignType,
}

/// A status member as the pipeline reads it.
pub struct SignView {
    pub field: Seq<char>,
    pub ok: FieldValueView,
    pub err: FieldValueView,
}

impl View for StatusSign {
    type V = SignView;

    open spec fn view(&self) -> SignView {
        SignView { field: self.field_name@, ok: self.ty.ok_view(), err: self.ty.err_view() }
    }
}

impl StatusSign {
    /// A status member named `field_name` with the values of `ty`.
    pub fn new(field_name: String, ty: SignType) -> (r: StatusSign)
        ensures
            r.field_name == field_name,
            r.ty == ty,
    {
        StatusSign { field_name, ty }
    }
}

/// A status member, resolved: the name and the two values to write.
#[derive(Clone, Debug)]
pub struct InnerStatusSign {
    pub field: String,
    pub ok: FieldValue,
    pub err: FieldValue,
}

impl View for InnerStatusSign {
    type V = SignView;

    open spec fn view(&self) -> SignView {
        SignView { field: self.field@, ok: self.ok@, err: self.err@ }
    }
}

impl InnerStatusSign {
    /// Resolves what a configuration says of the status member.
    pub fn from_sign(sign: StatusSign) -> (r: InnerStatusSign)
        ensures
            r@ == sign@,
    {
        let StatusSign { field_name, ty } = sign;
        let (ok, err) = ty.into_values();
        InnerStatusSign { field: field_name, ok, err }
    }
}

} // verus!
