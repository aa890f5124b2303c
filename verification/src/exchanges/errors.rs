//! Errors an exchange reports to the code that drives it.
use vstd::prelude::*;

use crate::text::concatenate;

verus! {

#[derive(Debug)]
pub enum ExchangeApiError {
    /// The connection should be dropped and made again.
    DropConnectionError(String),
    /// The exchange should be dropped.
    DropExchangeError(String),
}

/// The text of an exchange error, as shown in logs.
pub open spec fn exchange_error_text(e: ExchangeApiError) -> Seq<char> {
    match e {
        ExchangeApiError::DropConnectionError(m) => "Drop connection error: "@ + m@,
        ExchangeApiError::DropExchangeError(m) => "Drop exchange error: "@ + m@,
    }
}

impl ExchangeApiError {
    /// The text of the error (what `Display` writes).
    pub fn message(&self) -> (r: String)
        ensures
            r@ == exchange_error_text(*self),
    {
        match self {
            ExchangeApiError::DropConnectionError(m) => concatenate("Drop connection error: ", m.as_str()),
            ExchangeApiError::DropExchangeError(m) => concatenate("Drop exchange error: ", m.as_str()),
        }
    }
}

} // verus!
