//! Verification of SP1 Groth16 and PLONK proofs behind a status-code boundary.
//!
//! `outcome` holds the closed set of verification outcomes and their status codes,
//! `verifiers` calls the proof-system verifiers, and `boundary` screens the raw
//! arguments a foreign caller hands over before any verifier runs.

pub mod boundary;
pub mod outcome;
pub mod verifiers;
