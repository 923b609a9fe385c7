//! The domain data: validated primitives and the response structure.

pub mod primitives;
pub mod structures;
