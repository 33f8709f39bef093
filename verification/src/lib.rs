//! An attestation-gated borrow validator.
//!
//! The engine admits a borrow request only when the caller presents a fresh
//! credit attestation (signer identity, score, tier, timestamp) together with
//! a co-located signature-verification record, produced earlier in the same
//! atomic transaction by a well-known verification authority, that covers the
//! trusted attester's key and the exact canonical encoding of the attestation.

pub mod attestation;
pub mod codec;
pub mod errors;
pub mod policy;
pub mod record;
pub mod timestamp;

pub use attestation::BorrowApproved;
pub use attestation::InstructionRecord;
pub use attestation::VerifierConfig;
pub use attestation::validate_borrow;
pub use errors::FairLendError;
