//! Request dispatcher of a trading node's RPC endpoint: validates an HTTP
//! request, applies the origin policy, and decides how the call is executed
//! and what the client gets back.

pub mod guarantees;
pub mod json;
pub mod policy;
pub mod service;
pub mod text;
