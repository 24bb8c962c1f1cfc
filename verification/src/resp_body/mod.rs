//! What a success payload must be: something that renders as JSON and says
//! what it does to the response around it.

mod serde_data;

pub use self::serde_data::{JsonText, LoadSerde};
use crate::extra_flag::effect::Effects;
use vstd::prelude::*;

verus! {

/// A success payload.
pub trait RespBody: LoadSerde + Effects {

}

impl<T> RespBody for T where T: LoadSerde + Effects {

}

} // verus!
