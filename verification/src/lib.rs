//! A small user-registration service: a liveness probe, an echo endpoint,
//! and a registration flow that hashes a password and records a user row,
//! reporting duplicate emails distinctly from other failures.

pub mod hashing;
pub mod http;
pub mod json;
pub mod text;
pub mod timestamp;
pub mod users;
