//! What all exchanges share: their names, and the price socket of a pair.
pub mod exchange_name;
pub mod handler;
