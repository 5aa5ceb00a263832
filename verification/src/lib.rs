//! A safe, owned model of a pluggable RSA algorithm descriptor.
//!
//! An [`RsaMethod`](method::RsaMethod) records the state that a host
//! cryptography library keeps in its algorithm descriptor structure: a
//! human-readable name, a bit-field of behavioural flags, an opaque
//! address-sized application-data word, and twelve typed callback slots,
//! one per RSA sub-operation. Every operation on the descriptor is
//! specified and verified against the mathematical view in [`model`].

pub mod error;
pub mod laws;
pub mod method;
pub mod model;
pub mod slots;

pub use error::MethodError;
pub use method::RsaMethod;
