//! Password hashing.

pub mod hashing;
