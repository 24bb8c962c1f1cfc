//! Deriving the error contract for an enum from what is declared on its
//! variants: the message for the client, the status, the extra message.
//!
//! The input is the declaration as plain text: names, and expressions as
//! they were written. The output is the text of the implementation.

pub mod codegen;
pub mod input;

pub use self::codegen::{RespErrorCodeGen, VariantCodeGen};
pub use self::input::{DeriveData, DeriveError, HttpCode, RespErrorDeriveInput, VariantInfo};
