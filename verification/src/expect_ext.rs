//! Taking the value out of a result that is known to hold one.

use vstd::pervasive::unreached;
use vstd::prelude::*;

verus! {

/// A result or an option of which the caller knows which case it is.
pub trait ExpectExt<T, E>: Sized {
    /// Whether this holds a value.
    spec fn has_value(&self) -> bool;

    /// The value, where this holds one.
    spec fn value_spec(self) -> T;

    /// What this holds in place of a value, where it holds none.
    spec fn error_spec(self) -> E;

    /// The value. `msg` says what the caller expected.
    fn with_expect(self, msg: &str) -> (r: T)
        requires
            self.has_value(),
        ensures
            r == self.value_spec(),
    ;

    /// What stands in place of the value. `msg` says what the caller
    /// expected.
    fn with_expect_err(self, msg: &str) -> (r: E)
        requires
            !self.has_value(),
        ensures
            r == self.error_spec(),
    ;
}

impl<T, E> ExpectExt<T, E> for Result<T, E> {
    open spec fn has_value(&self) -> bool {
        self is Ok
    }

    open spec fn value_spec(self) -> T {
        self->Ok_0
    }

    open spec fn error_spec(self) -> E {
        self->Err_0
    }

    fn with_expect(self, msg: &str) -> (r: T) {
        match self {
            Ok(value) => value,
            Err(_) => unreached(),
        }
    }

    fn with_expect_err(self, msg: &str) -> (r: E) {
        match self {
            Ok(_) => unreached(),
            Err(error) => error,
        }
    }
}

impl<T> ExpectExt<T, ()> for Option<T> {
    open spec fn has_value(&self) -> bool {
        self is Some
    }

    open spec fn value_spec(self) -> T {
        self->Some_0
    }

    open spec fn error_spec(self) -> () {
        ()
    }

    fn with_expect(self, msg: &str) -> (r: T) {
        match self {
            Some(value) => value,
            None => unreached(),
        }
    }

    fn with_expect_err(self, msg: &str) -> (r: ()) {
        match self {
            Some(_) => unreached(),
            None => (),
        }
    }
}

} // verus!
