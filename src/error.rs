//! Failures that come from outside the code computation itself.
use vstd::prelude::*;

verus! {

/// Why a counter or a secret could not be produced.
#[derive(Clone, Copy, Debug, PartialEq, Eq, Structural)]
pub enum Error {
    /// The current time could not be placed at or after the epoch.
    TimeError,
    /// The entropy source failed to deliver a full secret.
    RandomBytesError,
    /// The configured interval was zero seconds.
    ZeroInterval,
}

} // verus!
