//! An attestation broker: one front for verifying the evidence of a trusted execution
//! environment, whichever verifier stands behind it.
//!
//! A [`service::AttestationService`] holds the configuration of exactly one backend. On each
//! request it constructs a fresh instance of that backend, hands the request to it unchanged
//! through the [`attest::Attest`] capability, and returns the instance's answer unchanged. A
//! failure to construct the instance is reported as an initialization failure, and then the
//! backend is not asked. The broker keeps nothing between requests and tries nothing twice.
//!
//! The backends themselves are not part of this crate. A deployment hands their constructors
//! to the broker in a [`service::Backends`], and each of them implements [`attest::Attest`].
pub mod attest;
pub mod error;
pub mod laws;
pub mod service;
