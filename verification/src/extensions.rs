//! Operations that extend the plain value types.

pub mod rgba;
