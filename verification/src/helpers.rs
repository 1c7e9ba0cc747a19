//! Helpers of the RPC surface.

pub mod codes;
pub mod errors;
