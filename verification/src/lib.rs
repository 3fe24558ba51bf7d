//! Reproducible container image builds and OCI tarball analysis.

pub mod archive;
pub mod builder;
pub mod display;
pub mod hashing;
pub mod oci;
pub mod paths;
pub mod testutil;
pub mod text;
