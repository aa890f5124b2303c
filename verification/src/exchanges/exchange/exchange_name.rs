//! Names of the exchanges the service knows, and their text forms.
use vstd::prelude::*;

use crate::text::str_equal;

verus! {

pub const BINANCE: &'static str = "binance";
pub const WHITEBIT: &'static str = "whitebit";
pub const KRAKEN: &'static str = "kraken";
pub const BITFINEX: &'static str = "bitfinex";
pub const MEXC: &'static str = "mexc";
pub const COINBASE: &'static str = "coinbase";
pub const INDEPENDENT_RESERVE: &'static str = "independent_reserve";

/// An exchange for which pairs can be watched.
#[derive(Debug, Clone, Copy, Hash, PartialEq, Eq, Structural)]
pub enum ExchangeName {
    Binance,
}

impl View for ExchangeName {
    type V = ExchangeName;

    open spec fn view(&self) -> ExchangeName {
        *self
    }
}

/// The text by which an exchange is written.
pub open spec fn exchange_text(e: ExchangeName) -> Seq<char> {
    match e {
        ExchangeName::Binance => "binance"@,
    }
}

/// The exchange that a text names, if any.
pub open spec fn exchange_named(s: Seq<char>) -> Option<ExchangeName> {
    if s == "binance"@ {
        Some(ExchangeName::Binance)
    } else {
        None
    }
}

impl ExchangeName {
    /// The text of the exchange (what `&str::from` gives in the service).
    pub fn as_str(&self) -> (r: &'static str)
        ensures
            r@ == exchange_text(*self),
    {
        match self {
            ExchangeName::Binance => BINANCE,
        }
    }

    /// The text of the exchange as an owned string (what `String::from`
    /// and `Display` give in the service).
    pub fn to_display_string(&self) -> (r: String)
        ensures
            r@ == exchange_text(*self),
    {
        self.as_str().to_owned()
    }

    /// The exchange written by `value`, if there is one.
    pub fn parse_name(value: &str) -> (r: Option<ExchangeName>)
        ensures
            r == exchange_named(value@),
    {
        if str_equal(value, BINANCE) {
            Some(ExchangeName::Binance)
        } else {
            None
        }
    }

    /// The exchange written by `value`; only an exchange's own text is
    /// accepted (any other text is a programming error in the service).
    pub fn from_name(value: &str) -> (r: ExchangeName)
        requires
            exchange_named(value@) is Some,
        ensures
            Some(r) == exchange_named(value@),
    {
        ExchangeName::Binance
    }
}

/// Reading back the text of an exchange gives the same exchange.
pub proof fn exchange_text_round_trip(e: ExchangeName)
    ensures
        exchange_named(exchange_text(e)) == Some(e),
{
}

} // verus!
