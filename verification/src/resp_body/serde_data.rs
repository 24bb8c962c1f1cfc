//! How a payload hands over its JSON text.

use crate::json::{
    bool_text, integer_text, json_string, null_text, write_bool, write_null, write_signed,
    write_string, write_unsigned, SerializeError,
};
use vstd::prelude::*;

verus! {

/// JSON text, as bytes.
pub type JsonText = Seq<u8>;

/// A payload: a value that renders as one JSON value.
pub trait LoadSerde {
    /// Whether this payload can be written as JSON.
    spec fn renders(&self) -> bool;

    /// The JSON text of this payload, where it can be written.
    spec fn json_view(&self) -> JsonText;

    /// Renders this payload. Which members it writes is its own affair.
    fn load_serde(&self) -> (r: Result<Vec<u8>, SerializeError>)
        ensures
            r is Ok <==> self.renders(),
            r matches Ok(bytes) ==> bytes@ == self.json_view(),
    ;
}

impl LoadSerde for () {
    open spec fn renders(&self) -> bool {
        true
    }

    open spec fn json_view(&self) -> Seq<u8> {
        null_text()
    }

    fn load_serde(&self) -> (r: Result<Vec<u8>, SerializeError>) {
        Ok(write_null())
    }
}

impl LoadSerde for bool {
    open spec fn renders(&self) -> bool {
        true
    }

    open spec fn json_view(&self) -> Seq<u8> {
        bool_text(*self)
    }

    fn load_serde(&self) -> (r: Result<Vec<u8>, SerializeError>) {
        Ok(write_bool(*self))
    }
}

impl LoadSerde for u32 {
    open spec fn renders(&self) -> bool {
        true
    }

    open spec fn json_view(&self) -> Seq<u8> {
        integer_text(*self as int)
    }

    fn load_serde(&self) -> (r: Result<Vec<u8>, SerializeError>) {
        Ok(write_unsigned(*self as u64))
    }
}

impl LoadSerde for u64 {
    open spec fn renders(&self) -> bool {
        true
    }

    open spec fn json_view(&self) -> Seq<u8> {
        integer_text(*self as int)
    }

    fn load_serde(&self) -> (r: Result<Vec<u8>, SerializeError>) {
        Ok(write_unsigned(*self))
    }
}

impl LoadSerde for i32 {
    open spec fn renders(&self) -> bool {
        true
    }

    open spec fn json_view(&self) -> Seq<u8> {
        integer_text(*self as int)
    }

    fn load_serde(&self) -> (r: Result<Vec<u8>, SerializeError>) {
        Ok(write_signed(*self as i64))
    }
}

impl LoadSerde for i64 {
    open spec fn renders(&self) -> bool {
        true
    }

    open spec fn json_view(&self) -> Seq<u8> {
        integer_text(*self as int)
    }

    fn load_serde(&self) -> (r: Result<Vec<u8>, SerializeError>) {
        Ok(write_signed(*self))
    }
}

impl LoadSerde for String {
    open spec fn renders(&self) -> bool {
        true
    }

    open spec fn json_view(&self) -> Seq<u8> {
        json_string(self@)
    }

    fn load_serde(&self) -> (r: Result<Vec<u8>, SerializeError>) {
        Ok(write_string(self.as_str()))
    }
}

} // verus!
