//! Interconnect consumer path.

use vstd::prelude::*;

use crate::error::{self, to_result, Error};

verus! {

/// An interconnect path and the bandwidth that was last granted on it.
#[derive(Clone, Copy, Debug, PartialEq, Eq, Structural)]
pub struct Path {
    pub average: u32,
    pub peak: u32,
}

impl Path {
    /// A path without a bandwidth vote, given whether the platform found it.
    pub fn get(found: Result<(), Error>) -> (r: Result<Self, Error>)
        ensures
            r == (match found {
                Ok(()) => Ok::<Self, Error>(Path { average: 0, peak: 0 }),
                Err(e) => Err(e),
            }),
    {
        match found {
            Ok(()) => Ok(Path { average: 0, peak: 0 }),
            Err(e) => Err(e),
        }
    }

    /// Takes note of a bandwidth vote in interconnect units, given what the
    /// platform returned.
    pub fn set_bw(&mut self, average: u32, peak: u32, ret: i32) -> (r: Result<(), Error>)
        ensures
            r == error::outcome(ret),
            *final(self) == (if ret >= 0 {
                Path { average, peak }
            } else {
                *old(self)
            }),
    {
        match to_result(ret) {
            Ok(()) => {
                self.average = average;
                self.peak = peak;
                Ok(())
            },
            Err(e) => Err(e),
        }
    }

    /// The vote that a path leaves behind: none.
    pub fn release(self) -> (r: (u32, u32))
        ensures
            r == (0u32, 0u32),
    {
        (0, 0)
    }
}

/// A path has the bandwidth of the last vote that the platform took; a vote that it
/// refused leaves the one before. A path that is given up votes for none.
pub proof fn law_last_vote_counts(
    path: &mut Path,
    average: u32,
    peak: u32,
    ret: i32,
    r: Result<(), Error>,
    left: (u32, u32),
)
    requires
        call_ensures(Path::set_bw, (path, average, peak, ret), r),
        call_ensures(Path::release, (*final(path),), left),
    ensures
        r is Ok <==> ret >= 0,
        r is Ok ==> final(path).average == average && final(path).peak == peak,
        r is Err ==> *final(path) == *old(path),
        left.0 + left.1 == 0,
{
}

} // verus!
