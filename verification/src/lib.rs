//! Rule-based compliance scorer for bond issuance.
//!
//! The engine derives a verification score for an issuer's tax identifier
//! and decides whether a proposed bond is approved, producing a synthetic
//! transaction reference when it is.

pub mod compliance;
pub mod text;

pub use compliance::ApprovalResult;
pub use compliance::BondApprovalRequest;
pub use compliance::BondFiCompliance;
pub use compliance::VerificationResult;
