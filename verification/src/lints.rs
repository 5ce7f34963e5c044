//! The built-in lint passes.

pub mod bare_assert;
pub mod push_immediate;
