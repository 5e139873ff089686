//! Certificate-trust checking for unpacked application bundles.
//!
//! The crate turns the text that a certificate-dump utility prints for a
//! signing certificate into typed fields, evaluates the signing policies on
//! them and records the findings in a results store.

pub mod analysis;
pub mod candidate;
mod clock;
pub mod date;
pub mod error;
pub mod fields;
pub mod laws;
pub mod number;
pub mod policy;
pub mod results;
pub mod text;
