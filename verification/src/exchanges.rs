//! Exchanges, their names and the per-exchange logic.
use vstd::prelude::*;

pub mod binance;
pub mod errors;
pub mod exchange;
pub mod manager;

verus! {

/// The exchanges the service is meant to cover.
#[derive(Debug, Clone, Copy, PartialEq, Eq, Structural)]
pub enum Exchange {
    Binance,
    Whitebit,
    Kraken,
    Bitfinex,
    Mexc,
    Coinbase,
}

} // verus!
