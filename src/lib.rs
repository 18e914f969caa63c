//! A second-order dynamics filter: it drives a value toward a moving target
//! with a tunable frequency, damping ratio and initial response, and stays
//! stable for any time step.
//!
//! The filter is generic over its scalar type `S` and its vector type `T`.
//! Arithmetic goes through `core::ops`, whose behaviour vstd describes with
//! abstract specifications (`add_spec`, `mul_spec`, ...); the contracts here
//! are stated over those, for every type whose operators obey them.
pub mod scalar;
pub mod dynamics;

pub use scalar::Real;
pub use dynamics::{FilterState, SecondOrderDynamics};
