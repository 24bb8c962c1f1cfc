//! What can be an extra message: a value with a JSON text for the envelope
//! and a text for a header.

use crate::json::{
    ascii_chars, ascii_text, integer_text, json_string, write_signed, write_string,
    write_unsigned,
};
use crate::resp_body::JsonText;
use vstd::prelude::*;

verus! {

/// A value that can be carried as an extra message.
pub trait ExtraValue {
    /// The JSON text of this value.
    spec fn extra_json(&self) -> JsonText;

    /// The text of this value in a header.
    spec fn extra_text(&self) -> Seq<char>;

    /// Renders this value as JSON.
    fn to_json(&self) -> (r: Vec<u8>)
        ensures
            r@ == self.extra_json(),
    ;

    /// Renders this value as the text of a header.
    fn to_text(&self) -> (r: String)
        ensures
            r@ == self.extra_text(),
    ;
}

impl ExtraValue for String {
    open spec fn extra_json(&self) -> JsonText {
        json_string(self@)
    }

    open spec fn extra_text(&self) -> Seq<char> {
        self@
    }

    fn to_json(&self) -> (r: Vec<u8>) {
        write_string(self.as_str())
    }

    fn to_text(&self) -> (r: String) {
        self.clone()
    }
}

impl ExtraValue for u16 {
    open spec fn extra_json(&self) -> JsonText {
        integer_text(*self as int)
    }

    open spec fn extra_text(&self) -> Seq<char> {
        ascii_chars(integer_text(*self as int))
    }

    fn to_json(&self) -> (r: Vec<u8>) {
        write_unsigned(*self as u64)
    }

    fn to_text(&self) -> (r: String) {
        ascii_text(&write_unsigned(*self as u64))
    }
}

impl ExtraValue for u32 {
    open spec fn extra_json(&self) -> JsonText {
        integer_text(*self as int)
    }

    open spec fn extra_text(&self) -> Seq<char> {
        ascii_chars(integer_text(*self as int))
    }

    fn to_json(&self) -> (r: Vec<u8>) {
        write_unsigned(*self as u64)
    }

    fn to_text(&self) -> (r: String) {
        ascii_text(&write_unsigned(*self as u64))
    }
}

impl ExtraValue for u64 {
    open spec fn extra_json(&self) -> JsonText {
        integer_text(*self as int)
    }

    open spec fn extra_text(&self) -> Seq<char> {
        ascii_chars(integer_text(*self as int))
    }

    fn to_json(&self) -> (r: Vec<u8>) {
        write_unsigned(*self)
    }

    fn to_text(&self) -> (r: String) {
        ascii_text(&write_unsigned(*self))
    }
}

impl ExtraValue for i32 {
    open spec fn extra_json(&self) -> JsonText {
        integer_text(*self as int)
    }

    open spec fn extra_text(&self) -> Seq<char> {
        ascii_chars(integer_text(*self as int))
    }

    fn to_json(&self) -> (r: Vec<u8>) {
        write_signed(*self as i64)
    }

    fn to_text(&self) -> (r: String) {
        ascii_text(&write_signed(*self as i64))
    }
}

impl ExtraValue for i64 {
    open spec fn extra_json(&self) -> JsonText {
        integer_text(*self as int)
    }

    open spec fn extra_text(&self) -> Seq<char> {
        ascii_chars(integer_text(*self as int))
    }

    fn to_json(&self) -> (r: Vec<u8>) {
        write_signed(*self)
    }

    fn to_text(&self) -> (r: String) {
        ascii_text(&write_signed(*self))
    }
}

} // verus!
