use vstd::prelude::*;

verus! {

/// Why a fuzzing campaign cannot proceed (setup time) or must stop (run time).
///
/// A detected crash is not an error: it is the campaign's intended output and
/// is reported through `campaign::CampaignOutcome` instead.
#[derive(Clone, Copy, Debug, PartialEq, Eq, Structural)]
pub enum FuzzError {
    /// The interface declares a parameter type the generator cannot encode.
    UnsupportedTypeKind,
    /// The target interface declares no callable functions.
    EmptyInterface,
    /// The compiler output lacks one of the expected contracts.
    ContractNotFound,
    /// Deployment or an initialization call reverted or faulted.
    SetupFailed,
    /// The invariant check did not yield a strict boolean word.
    InvariantEncodingViolation,
}

} // verus!
