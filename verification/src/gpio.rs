//! GPIO consumer abstractions.

use vstd::prelude::*;

use crate::error::{self, to_result, Error};

verus! {

/// An optional GPIO that is used as an output.
#[derive(Clone, Copy, Debug, PartialEq, Eq, Structural)]
pub struct OptionalOutput {
    pub present: bool,
}

impl OptionalOutput {
    /// An output, given what looking for it came to: whether firmware supplies
    /// the GPIO, or the platform's error.
    pub fn get(found: Result<bool, Error>) -> (r: Result<Self, Error>)
        ensures
            r == (match found {
                Ok(present) => Ok::<Self, Error>(OptionalOutput { present }),
                Err(e) => Err(e),
            }),
    {
        match found {
            Ok(present) => Ok(OptionalOutput { present }),
            Err(e) => Err(e),
        }
    }

    /// Return whether firmware supplied the GPIO.
    pub fn is_present(&self) -> (r: bool)
        ensures
            r == self.present,
    {
        self.present
    }

    /// The value that the platform has to set, if the GPIO is present.
    pub fn value_to_set(&self, value: bool) -> (r: Option<i32>)
        ensures
            r == (if !self.present {
                None
            } else if value {
                Some(1i32)
            } else {
                Some(0)
            }),
    {
        if !self.is_present() {
            return None;
        }
        if value {
            Some(1)
        } else {
            Some(0)
        }
    }

    /// What setting a value came to, given what the platform returned. A GPIO
    /// that is not present takes every value.
    pub fn set_value(&self, ret: i32) -> (r: Result<(), Error>)
        ensures
            r == (if self.present {
                error::outcome(ret)
            } else {
                Ok(())
            }),
    {
        if !self.is_present() {
            return Ok(());
        }
        to_result(ret)
    }
}

/// A GPIO that is there is driven to the value that was asked for, and the
/// platform's answer decides: a negative one is an error. One that is not there is
/// left alone, and nothing fails.
pub proof fn law_output_is_driven(
    output: OptionalOutput,
    value: bool,
    ret: i32,
    driven: Option<i32>,
    r: Result<(), Error>,
)
    requires
        call_ensures(OptionalOutput::value_to_set, (&output, value), driven),
        call_ensures(OptionalOutput::set_value, (&output, ret), r),
    ensures
        driven is Some <==> output.present,
        driven matches Some(v) ==> (v == 1 || v == 0) && (v == 1 <==> value),
        r is Err <==> output.present && ret < 0,
{
}

} // verus!
