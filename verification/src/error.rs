//! Error kinds reported by the cycle-counter library.

use vstd::prelude::*;

verus! {

/// Every failure the library can report.
///
/// `FailedToCreate` and `FailedToRead` surface native-counter failures,
/// `InconsistentCore` rejects a delta between snapshots of two different
/// cores, `DivideByZero` and `Overflow` guard the usage / diff arithmetic,
/// and `FrequencySourceUnavailable` is reserved for callers that source the
/// reference frequency from the operating system and find it missing.
#[derive(Clone, Copy, Debug, PartialEq, Eq, Structural)]
pub enum Error {
    FailedToCreate,
    FailedToRead,
    InconsistentCore,
    DivideByZero,
    Overflow,
    FrequencySourceUnavailable,
}

impl Error {
    /// The message that describes this error kind.
    pub open spec fn spec_message(&self) -> Seq<char> {
        match self {
            Error::FailedToCreate => "failed to create cycles reader"@,
            Error::FailedToRead => "failed to read cpu cycles"@,
            Error::InconsistentCore => "cpu cores of CyclesInstant are inconsistent and cannot be subtracted"@,
            Error::DivideByZero => "elapsed duration is zero"@,
            Error::Overflow => "cycle arithmetic exceeded the 64-bit signed range"@,
            Error::FrequencySourceUnavailable => "failed to read the reference frequency"@,
        }
    }

    /// A human-readable description of the error.
    pub fn message(&self) -> (r: String)
        ensures
            r@ == self.spec_message(),
    {
        match self {
            Error::FailedToCreate => "failed to create cycles reader".to_owned(),
            Error::FailedToRead => "failed to read cpu cycles".to_owned(),
            Error::InconsistentCore => "cpu cores of CyclesInstant are inconsistent and cannot be subtracted".to_owned(),
            Error::DivideByZero => "elapsed duration is zero".to_owned(),
            Error::Overflow => "cycle arithmetic exceeded the 64-bit signed range".to_owned(),
            Error::FrequencySourceUnavailable => "failed to read the reference frequency".to_owned(),
        }
    }
}

} // verus!
