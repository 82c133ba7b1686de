//! The ways these contracts refuse on purpose.
use vstd::prelude::*;

verus! {

/// Every way these contracts refuse on purpose.
///
/// Numbered and stable (see [`Error::code`]), so an integrator branches on
/// `LimitExceeded` rather than string-matching a message.
///
/// There is no `NotAdmin`: an unauthorised caller is stopped by the host's
/// authorisation check on the stored admin before any of this runs.
#[derive(Clone, Copy, Debug, PartialEq, Eq, Structural, PartialOrd, Ord)]
pub enum Error {
    /// The registry has not been initialised with an admin yet.
    NotInitialised,
    /// Already initialised. An admin cannot be silently replaced.
    AlreadyInitialised,
    /// Amounts and limits must be greater than zero.
    BadAmount,
    /// This spend would take the user past their daily limit.
    LimitExceeded,
    /// The running total would overflow i128.
    Overflow,
    /// No passkey is registered for this user.
    NoKey,
    /// A multi-sig threshold must be at least 1.
    BadThreshold,
}

impl Error {
    /// The stable number of each error.
    pub open spec fn spec_code(self) -> u32 {
        match self {
            Error::NotInitialised => 1,
            Error::AlreadyInitialised => 2,
            Error::BadAmount => 3,
            Error::LimitExceeded => 4,
            Error::Overflow => 5,
            Error::NoKey => 6,
            Error::BadThreshold => 7,
        }
    }

    /// The stable number of this error, as the host reports it
    /// (`Error(Contract, #n)`).
    pub fn code(&self) -> (r: u32)
        ensures
            r == self.spec_code(),
    {
        match self {
            Error::NotInitialised => 1,
            Error::AlreadyInitialised => 2,
            Error::BadAmount => 3,
            Error::LimitExceeded => 4,
            Error::Overflow => 5,
            Error::NoKey => 6,
            Error::BadThreshold => 7,
        }
    }
}

/// Each error has its own number, between 1 and 7.
pub proof fn codes_identify_errors(e1: Error, e2: Error)
    ensures
        e1.spec_code() == e2.spec_code() ==> e1 == e2,
        1 <= e1.spec_code() <= 7,
{
}

} // verus!
