use vstd::prelude::*;

verus! {

/// Why a reading failed, with the failure detail of the capability that
/// produced it, passed on unchanged.
#[derive(Debug, Clone, Copy, PartialEq, Eq)]
pub enum Error<OutputError, AdcError> {
    /// Switching the emitter line on or off failed.
    LedError(OutputError),
    /// The analog conversion reported a definitive failure.
    ReadError(AdcError),
}

} // verus!
