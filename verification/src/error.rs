//! Error codes shared by the whole driver core.

use vstd::prelude::*;

verus! {

/// An error, by its number.
///
/// The codes that the driver core raises or tells apart have a variant of their
/// own; every other code that the platform reports is carried through as
/// `Errno`. Two errors with the same number are the same error.
#[allow(non_camel_case_types, clippy::upper_case_acronyms)]
#[derive(Clone, Copy, Debug, PartialEq, Eq, Structural)]
pub enum Error {
    /// Invalid argument.
    EINVAL,
    /// Input or output error.
    EIO,
    /// Device or resource busy.
    EBUSY,
    /// Out of memory.
    ENOMEM,
    /// Index out of range.
    ERANGE,
    /// Value too large.
    EOVERFLOW,
    /// No such device.
    ENODEV,
    /// Operation not supported.
    ENOTSUPP,
    /// Operation timed out.
    ETIMEDOUT,
    /// A code reported by the platform.
    Errno(i32),
}

impl Error {
    /// The negative number that stands for the error.
    pub open spec fn number(self) -> int {
        match self {
            Error::EINVAL => -22,
            Error::EIO => -5,
            Error::EBUSY => -16,
            Error::ENOMEM => -12,
            Error::ERANGE => -34,
            Error::EOVERFLOW => -75,
            Error::ENODEV => -19,
            Error::ENOTSUPP => -524,
            Error::ETIMEDOUT => -110,
            Error::Errno(n) => n as int,
        }
    }

    /// The error that a negative number stands for.
    pub open spec fn decode(errno: i32) -> Self {
        if errno == -22 {
            Error::EINVAL
        } else if errno == -5 {
            Error::EIO
        } else if errno == -16 {
            Error::EBUSY
        } else if errno == -12 {
            Error::ENOMEM
        } else if errno == -34 {
            Error::ERANGE
        } else if errno == -75 {
            Error::EOVERFLOW
        } else if errno == -19 {
            Error::ENODEV
        } else if errno == -524 {
            Error::ENOTSUPP
        } else if errno == -110 {
            Error::ETIMEDOUT
        } else {
            Error::Errno(errno)
        }
    }

    /// The negative number that stands for the error.
    pub fn to_errno(self) -> (r: i32)
        ensures
            r == self.number(),
    {
        match self {
            Error::EINVAL => -22,
            Error::EIO => -5,
            Error::EBUSY => -16,
            Error::ENOMEM => -12,
            Error::ERANGE => -34,
            Error::EOVERFLOW => -75,
            Error::ENODEV => -19,
            Error::ENOTSUPP => -524,
            Error::ETIMEDOUT => -110,
            Error::Errno(n) => n,
        }
    }

    /// The error that a negative number stands for.
    pub fn from_errno(errno: i32) -> (r: Self)
        ensures
            r == Self::decode(errno),
    {
        match errno {
            -22 => Error::EINVAL,
            -5 => Error::EIO,
            -16 => Error::EBUSY,
            -12 => Error::ENOMEM,
            -34 => Error::ERANGE,
            -75 => Error::EOVERFLOW,
            -19 => Error::ENODEV,
            -524 => Error::ENOTSUPP,
            -110 => Error::ETIMEDOUT,
            _ => Error::Errno(errno),
        }
    }

    /// Whether both errors have the same number, which is all that tells errors
    /// apart.
    pub fn same_as(self, other: Error) -> (r: bool)
        ensures
            r == (self.number() == other.number()),
    {
        self.to_errno() == other.to_errno()
    }
}

/// What a platform call's return value means: a negative one is an error.
pub open spec fn outcome(ret: i32) -> Result<(), Error> {
    if ret < 0 {
        Err(Error::decode(ret))
    } else {
        Ok(())
    }
}

/// What a platform call's return value means: a negative one is an error.
pub fn to_result(ret: i32) -> (r: Result<(), Error>)
    ensures
        r == outcome(ret),
{
    if ret < 0 {
        Err(Error::from_errno(ret))
    } else {
        Ok(())
    }
}

/// A number leads to the error that it stands for and back, and so does every
/// error with a variant of its own.
pub proof fn law_errno_round_trip(errno: i32, e: Error)
    ensures
        Error::decode(errno).number() == errno,
        e is Errno || Error::decode(e.number() as i32) == e,
{
}

/// The numbers of the errors that have a variant of their own, and what a return
/// value of the platform means: an error if and only if it is negative, and then
/// the one with that number.
pub proof fn law_error_numbers(ret: i32)
    ensures
        Error::EIO.number() == -5,
        Error::ENOMEM.number() == -12,
        Error::EBUSY.number() == -16,
        Error::ENODEV.number() == -19,
        Error::EINVAL.number() == -22,
        Error::ERANGE.number() == -34,
        Error::EOVERFLOW.number() == -75,
        Error::ETIMEDOUT.number() == -110,
        Error::ENOTSUPP.number() == -524,
        outcome(ret) is Err <==> ret < 0,
        outcome(ret) matches Err(e) ==> e.number() == ret,
{
}

} // verus!
