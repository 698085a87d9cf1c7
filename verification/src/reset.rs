//! Reset controller consumer abstractions.

use vstd::prelude::*;

use crate::error::{self, to_result, Error};

verus! {

/// An optional reset control that nobody else uses.
#[derive(Clone, Copy, Debug, PartialEq, Eq, Structural)]
pub struct OptionalExclusive {
    pub present: bool,
}

impl OptionalExclusive {
    /// A reset control, given what looking for it came to: whether there is one,
    /// or the platform's error.
    pub fn get(found: Result<bool, Error>) -> (r: Result<Self, Error>)
        ensures
            r == (match found {
                Ok(present) => Ok::<Self, Error>(OptionalExclusive { present }),
                Err(e) => Err(e),
            }),
    {
        match found {
            Ok(present) => Ok(OptionalExclusive { present }),
            Err(e) => Err(e),
        }
    }

    /// Whether the platform has a line to drive.
    pub fn is_present(&self) -> (r: bool)
        ensures
            r == self.present,
    {
        self.present
    }

    /// What asserting the line came to, given what the platform returned if it
    /// has a line to drive.
    pub fn assert_line(&self, ret: i32) -> (r: Result<(), Error>)
        ensures
            r == (if self.present {
                error::outcome(ret)
            } else {
                Ok(())
            }),
    {
        if !self.present {
            return Ok(());
        }
        to_result(ret)
    }

    /// What deasserting the line came to, given what the platform returned if it
    /// has a line to drive.
    pub fn deassert(&self, ret: i32) -> (r: Result<(), Error>)
        ensures
            r == (if self.present {
                error::outcome(ret)
            } else {
                Ok(())
            }),
    {
        if !self.present {
            return Ok(());
        }
        to_result(ret)
    }
}

/// A reset line that is there fails with the platform: a negative answer is an
/// error. One that is not there never fails.
pub proof fn law_reset_line_fails_with_the_platform(
    line: OptionalExclusive,
    ret: i32,
    asserted: Result<(), Error>,
    deasserted: Result<(), Error>,
)
    requires
        call_ensures(OptionalExclusive::assert_line, (&line, ret), asserted),
        call_ensures(OptionalExclusive::deassert, (&line, ret), deasserted),
    ensures
        asserted is Err <==> line.present && ret < 0,
        deasserted is Err <==> line.present && ret < 0,
{
}

} // verus!
