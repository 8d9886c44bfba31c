//! The attestation record and the key that keeps it from being made twice.

mod attestation;

pub use attestation::{Attestation, AttestationDedupKey, AttestationView, DedupKeyView};

pub(crate) use attestation::copy_bytes;
