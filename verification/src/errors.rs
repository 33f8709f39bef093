use vstd::prelude::*;

verus! {

/// The terminal failure kinds of a borrow validation. Every failing stage
/// aborts the whole call with exactly one of these; the caller must obtain a
/// fresh attestation and resubmit.
#[derive(Clone, Copy, Debug, PartialEq, Eq, Structural)]
pub enum FairLendError {
    /// The attestation timestamp is older than the freshness window.
    StaleAttestation,
    /// The attestation timestamp lies too far in the future.
    InvalidTimestamp,
    /// No sibling record matched the expected signer and message exactly.
    InvalidSignature,
    /// The verified attestation's tier is below the minimum required.
    TierTooLow,
}

} // verus!
