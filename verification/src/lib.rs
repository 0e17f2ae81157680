//! A verified boundary layer for a native zero-knowledge proving library.
//!
//! The native library does all cryptographic work (constraint-system sizing,
//! proof creation, proof verification, verifier-contract generation) behind a
//! C calling convention. This crate holds the two pieces of that boundary that
//! can be verified:
//!
//! * [`platform`]: selection of the toolchain, C++ standard library and linker
//!   directives for the host operating system and CPU architecture, as a total,
//!   deterministic function over a closed set of supported platforms that fails
//!   fast on anything else;
//! * [`composer`]: validated call plans for the five native composer entry
//!   points. Every buffer is length-checked before it may cross into foreign
//!   code, and each plan carries its buffers to the boundary unchanged.
//!
//! The foreign calls themselves live in an unverified shell around this crate:
//! it executes a plan against the native library and hands the raw outcome back
//! to the verified interpretation functions here.

pub mod composer;
pub mod platform;
