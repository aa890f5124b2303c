//! The Binance exchange's own state: the pairs it serves, each with the
//! channel its prices go to, and whether its public websocket was started.
use vstd::prelude::*;

use crate::registry::Registry;
use crate::text::{remove_char, without_char};

verus! {

/// The abstract state of the Binance exchange.
pub struct BinanceView<S> {
    /// Sender of each pair, by the pair as it was added.
    pub pairs: Map<Seq<char>, S>,
    /// Whether the public websocket task is running.
    pub websocket_started: bool,
}

/// The result of adding a pair.
pub enum BinanceAddOutcome {
    /// The pair, once its separator is taken out, is already served.
    AlreadyExists,
    /// The pair was added; the public websocket must be started when asked.
    Added { start_websocket: bool },
}

/// Adding a pair: the check is made on the pair without its `_` separator,
/// the pair is stored as given, and the websocket is started by the first
/// pair that is added while it does not run.
pub open spec fn binance_add_pair<S>(pre: BinanceView<S>, pair: Seq<char>, sender: S) -> (
    BinanceView<S>,
    BinanceAddOutcome,
) {
    if pre.pairs.dom().contains(without_char(pair, '_')) {
        (pre, BinanceAddOutcome::AlreadyExists)
    } else {
        (
            BinanceView { pairs: pre.pairs.insert(pair, sender), websocket_started: true },
            BinanceAddOutcome::Added { start_websocket: !pre.websocket_started },
        )
    }
}

pub struct BinanceExchange<S> {
    pairs: Registry<String, S>,
    websocket_started: bool,
}

impl<S> View for BinanceExchange<S> {
    type V = BinanceView<S>;

    open spec fn view(&self) -> BinanceView<S> {
        BinanceView { pairs: self.pairs_view(), websocket_started: self.started() }
    }
}

impl<S> BinanceExchange<S> {
    pub closed spec fn pairs_view(&self) -> Map<Seq<char>, S> {
        self.pairs@
    }

    pub closed spec fn started(&self) -> bool {
        self.websocket_started
    }

    /// An exchange with no pair and no websocket.
    pub fn new() -> (r: Self)
        ensures
            r@.pairs == Map::<Seq<char>, S>::empty(),
            !r@.websocket_started,
    {
        BinanceExchange { pairs: Registry::new(), websocket_started: false }
    }

    /// The exchange's name.
    pub fn get_name(&self) -> (r: String)
        ensures
            r@ == "binance"@,
    {
        crate::exchanges::exchange::exchange_name::BINANCE.to_owned()
    }

    /// The pair as Binance writes it: without the `_` separator.
    pub fn get_exchange_matching_pair(&self, pair: &str) -> (r: String)
        ensures
            r@ == without_char(pair@, '_'),
    {
        remove_char(pair, '_')
    }

    /// Adds a pair with the channel its prices go to.
    pub fn add_pair(&mut self, pair: &String, sender: S) -> (r: BinanceAddOutcome)
        ensures
            (final(self)@, r) == binance_add_pair(old(self)@, pair@, sender),
    {
        let exchange_pair = self.get_exchange_matching_pair(pair.as_str());
        if self.pairs.contains_key(&exchange_pair) {
            return BinanceAddOutcome::AlreadyExists;
        }
        self.pairs.insert(pair.clone(), sender);
        let start_websocket = !self.websocket_started;
        self.websocket_started = true;
        BinanceAddOutcome::Added { start_websocket }
    }

    /// Marks the public websocket as stopped; the result says whether it was
    /// running and so must be told to stop.
    pub fn stop_public(&mut self) -> (r: bool)
        ensures
            r == old(self)@.websocket_started,
            final(self)@ == (BinanceView { websocket_started: false, ..old(self)@ }),
    {
        let was = self.websocket_started;
        self.websocket_started = false;
        was
    }

    /// The pairs served, each with its sender, each pair once.
    pub fn pairs(&self) -> (r: &Vec<(String, S)>)
        ensures
            crate::registry::entries_map(r@) == self@.pairs,
            crate::registry::keys_distinct(r@),
    {
        self.pairs.entries()
    }
}

/// The public websocket endpoint used when none is configured.
pub fn get_default_public_url() -> (r: String)
    ensures
        r@ == "wss://data-stream.binance.vision/ws"@,
{
    "wss://data-stream.binance.vision/ws".to_owned()
}

/// The private websocket endpoint used when none is configured.
pub fn get_default_private_url() -> (r: String)
    ensures
        r@ == "wss://data-stream.binance.vision/ws"@,
{
    "wss://data-stream.binance.vision/ws".to_owned()
}

/// Once the websocket runs, adding pairs never asks to start it again, and
/// it keeps running.
pub proof fn websocket_is_started_once<S>(pre: BinanceView<S>, pair: Seq<char>, sender: S)
    requires
        pre.websocket_started,
    ensures
        binance_add_pair(pre, pair, sender).0.websocket_started,
        binance_add_pair(pre, pair, sender).1 != (BinanceAddOutcome::Added {
            start_websocket: true,
        }),
{
}

/// After a pair is added, the pair is served with the sender given.
pub proof fn added_pair_is_served<S>(pre: BinanceView<S>, pair: Seq<char>, sender: S)
    requires
        binance_add_pair(pre, pair, sender).1 is Added,
    ensures
        binance_add_pair(pre, pair, sender).0.pairs.dom().contains(pair),
        binance_add_pair(pre, pair, sender).0.pairs[pair] == sender,
{
}

} // verus!
