//! A single-purpose network service, as a verified library: a client sends six
//! encrypted numeric features of a financial account, the server evaluates one
//! fixed arithmetic risk-score formula homomorphically (never decrypting) and
//! returns one encrypted result.
//!
//! The verified part is the protocol and pipeline layer: the length-prefixed
//! wire framing, the fixed order of the homomorphic operations, and the
//! per-connection error taxonomy.  The homomorphic scheme itself is an opaque
//! outside capability.  Socket and file I/O live outside this crate.

pub mod codec;
pub mod errors;
pub mod handler;
pub mod pipeline;
