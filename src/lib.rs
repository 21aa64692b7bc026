//! Resolves, once per monitoring session, where the optional fields of its trace records lie.

pub mod bits;
pub mod layout;
pub mod laws;
