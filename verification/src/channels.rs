//! Forwarding from broadcast channels.
pub mod pair;
