//! The programmatic interface.

pub mod jwks;
