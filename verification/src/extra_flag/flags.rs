//! The directives by which a payload changes the response around it.

use crate::headers::{header_name_bytes, header_value_bytes};
use crate::status::StatusCode;
use http::header::{HeaderName, HeaderValue};
use vstd::prelude::*;

verus! {

/// How a header directive treats the values that the header holds already.
#[derive(Clone, Copy, Debug, PartialEq, Eq, Structural)]
pub enum HeaderType {
    /// the new value takes their place
    Insert,
    /// the new value comes behind them
    Append,
}

/// One directive.
#[derive(Clone, Debug)]
pub enum ExtraFlag {
    /// send no body
    EmptyBody,
    /// answer with this status
    SetStatus(StatusCode),
    /// give this header this value
    SetHeader(HeaderName, HeaderValue, HeaderType),
    /// take this header away
    RemoveHeader(HeaderName),
}

/// What a directive stands for: names and values by their bytes.
pub enum FlagView {
    EmptyBody,
    SetStatus(StatusCode),
    SetHeader(Seq<u8>, Seq<u8>, HeaderType),
    RemoveHeader(Seq<u8>),
}

impl View for ExtraFlag {
    type V = FlagView;

    open spec fn view(&self) -> FlagView {
        match self {
            ExtraFlag::EmptyBody => FlagView::EmptyBody,
            ExtraFlag::SetStatus(status) => FlagView::SetStatus(*status),
            ExtraFlag::SetHeader(name, value, ty) => FlagView::SetHeader(
                header_name_bytes(*name),
                header_value_bytes(*value),
                *ty,
            ),
            ExtraFlag::RemoveHeader(name) => FlagView::RemoveHeader(header_name_bytes(*name)),
        }
    }
}

impl ExtraFlag {
    /// The directive to send no body.
    pub fn empty_body() -> (r: ExtraFlag)
        ensures
            r@ == FlagView::EmptyBody,
    {
        ExtraFlag::EmptyBody
    }

    /// The directive to answer with `status`.
    pub fn status(status: StatusCode) -> (r: ExtraFlag)
        ensures
            r@ == FlagView::SetStatus(status),
    {
        ExtraFlag::SetStatus(status)
    }

    /// The directive to add `value` behind the values of the header `key`.
    pub fn append_header(key: HeaderName, value: HeaderValue) -> (r: ExtraFlag)
        ensures
            r@ == FlagView::SetHeader(
                header_name_bytes(key),
                header_value_bytes(value),
                HeaderType::Append,
            ),
    {
        ExtraFlag::SetHeader(key, value, HeaderType::Append)
    }

    /// The directive to give the header `key` the value `value` alone.
    pub fn insert_header(key: HeaderName, value: HeaderValue) -> (r: ExtraFlag)
        ensures
            r@ == FlagView::SetHeader(
                header_name_bytes(key),
                header_value_bytes(value),
                HeaderType::Insert,
            ),
    {
        ExtraFlag::SetHeader(key, value, HeaderType::Insert)
    }

    /// The directive to take the header `key` away.
    pub fn remove_header(key: HeaderName) -> (r: ExtraFlag)
        ensures
            r@ == FlagView::RemoveHeader(header_name_bytes(key)),
    {
        ExtraFlag::RemoveHeader(key)
    }
}

/// A sequence of directives, in the order in which they were put together.
#[derive(Clone, Debug)]
pub struct ExtraFlags {
    pub flags: Vec<ExtraFlag>,
}

/// What a sequence of directives stands for.
pub open spec fn flag_views(flags: Seq<ExtraFlag>) -> Seq<FlagView> {
    flags.map_values(|f: ExtraFlag| f@)
}

impl View for ExtraFlags {
    type V = Seq<FlagView>;

    open spec fn view(&self) -> Seq<FlagView> {
        flag_views(self.flags@)
    }
}

impl ExtraFlags {
    /// No directive.
    pub fn none() -> (r: ExtraFlags)
        ensures
            r@ == Seq::<FlagView>::empty(),
    {
        ExtraFlags { flags: Vec::new() }
    }

    /// These directives, then `flag`.
    pub fn with(self, flag: ExtraFlag) -> (r: ExtraFlags)
        ensures
            r@ == self@.push(flag@),
    {
        let mut flags = self.flags;
        flags.push(flag);
        ExtraFlags { flags }
    }

    /// These directives, then those of `other`.
    pub fn concat(self, other: ExtraFlags) -> (r: ExtraFlags)
        ensures
            r@ == self@ + other@,
    {
        let mut flags = self.flags;
        let mut tail = other.flags;
        let ghost head = flag_views(flags@);
        let ghost rest = flag_views(tail@);
        flags.append(&mut tail);
        assert(flag_views(flags@) == head + rest);
        ExtraFlags { flags }
    }
}

impl core::ops::Add for ExtraFlag {
    type Output = ExtraFlags;

    /// This directive, then `rhs`.
    fn add(self, rhs: ExtraFlag) -> (r: ExtraFlags)
        ensures
            r@ == seq![self@, rhs@],
    {
        ExtraFlags::none().with(self).with(rhs)
    }
}

impl vstd::std_specs::ops::AddSpecImpl for ExtraFlag {
    open spec fn obeys_add_spec() -> bool {
        false
    }

    open spec fn add_req(self, rhs: ExtraFlag) -> bool {
        true
    }

    open spec fn add_spec(self, rhs: ExtraFlag) -> ExtraFlags {
        arbitrary()
    }
}

impl core::ops::Add<ExtraFlag> for ExtraFlags {
    type Output = ExtraFlags;

    /// These directives, then `rhs`.
    fn add(self, rhs: ExtraFlag) -> (r: ExtraFlags)
        ensures
            r@ == self@.push(rhs@),
    {
        self.with(rhs)
    }
}

impl vstd::std_specs::ops::AddSpecImpl<ExtraFlag> for ExtraFlags {
    open spec fn obeys_add_spec() -> bool {
        false
    }

    open spec fn add_req(self, rhs: ExtraFlag) -> bool {
        true
    }

    open spec fn add_spec(self, rhs: ExtraFlag) -> ExtraFlags {
        arbitrary()
    }
}

impl From<ExtraFlag> for ExtraFlags {
    /// `flag` alone.
    fn from(flag: ExtraFlag) -> (r: ExtraFlags)
        ensures
            r@ == seq![flag@],
    {
        ExtraFlags::none().with(flag)
    }
}

impl vstd::std_specs::convert::FromSpecImpl<ExtraFlag> for ExtraFlags {
    open spec fn obeys_from_spec() -> bool {
        false
    }

    open spec fn from_spec(flag: ExtraFlag) -> ExtraFlags {
        arbitrary()
    }
}

} // verus!
