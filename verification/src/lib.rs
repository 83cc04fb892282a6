//! Proof-of-reserves attestation: decoding of the public claim, validation of
//! the reserve ledger, solvency arithmetic in basis points, and construction
//! of the committed digest and summary.
//!
//! All figures are unsigned 64-bit. Products are formed in 128 bits, so no
//! intermediate value wraps; a total, a ratio or a share that does not fit in
//! 64 bits ends the run with `AttestError::ArithmeticOverflow`. Every failure
//! is returned before anything is committed.

pub mod attest;
pub mod breakdown;
pub mod digest;
pub mod error;
pub mod input;
pub mod ledger;
pub mod metrics;
pub mod summary;
