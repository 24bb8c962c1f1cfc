//! Flags: how a success payload changes status, headers or body of the
//! response that carries it.

pub mod effect;
pub mod flag_wrap;
pub mod flags;

pub use self::effect::{BodyEffect, Effects, HeaderMapFull, PlainBody};
pub use self::flag_wrap::FlagWrap;
pub use self::flags::{ExtraFlag, ExtraFlags, FlagView, HeaderType};
