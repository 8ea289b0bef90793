//! Dispatch-and-verify harness for a batched Keccak-256 benchmark.
//!
//! A fixed batch of 4-byte messages is hashed twice: once by a sequential
//! reference pass on the host, and once by a data-parallel device kernel.
//! This crate holds the verified core: deterministic sample generation,
//! the flat buffer layout shared by both paths, launch-configuration
//! checks, the sequential reference hasher, and the byte-exact comparison
//! of the two digest sets.

pub mod compare;
pub mod dispatch;
pub mod reference;
pub mod samples;
