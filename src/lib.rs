//! Complex numbers in Cartesian form over a generic scalar type.
//!
//! `scalar` holds the capability interface that a scalar type supplies (ring
//! arithmetic, ordering, and the real transcendental primitives), `integer` its
//! implementations for machine integers, `complex` the value type and its
//! arithmetic, `transcendental` polar form and the elementary functions with
//! their principal branches, and `laws` the identities proved of them.
pub mod scalar;
pub mod integer;
pub mod complex;
pub mod transcendental;
pub mod laws;

pub use complex::Complex;
pub use scalar::{Real, Scalar};
