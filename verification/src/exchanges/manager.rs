//! The exchange manager: one price socket per watched (exchange, pair), and
//! the exchanges the pairs are handed to.
use vstd::prelude::*;

use crate::exchanges::binance::exchange::{
    binance_add_pair,
    BinanceAddOutcome,
    BinanceExchange,
    BinanceView,
};
use crate::exchanges::exchange::exchange_name::{exchange_text, ExchangeName};
use crate::registry::Registry;
use crate::text::{ends_with_char, push_char};

verus! {

/// The folder of the price sockets: the configured one, made to end with `/`,
/// or `/tmp/` when none is configured.
pub open spec fn socket_folder(configured: Option<Seq<char>>) -> Seq<char> {
    match configured {
        None => "/tmp/"@,
        Some(s) => if s.len() > 0 && s.last() == '/' {
            s
        } else {
            s.push('/')
        },
    }
}

/// The path of the price socket of a pair: `<folder><exchange>_<pair>.sock`.
pub open spec fn socket_path_of(
    configured: Option<Seq<char>>,
    exchange: ExchangeName,
    pair: Seq<char>,
) -> Seq<char> {
    socket_folder(configured) + exchange_text(exchange) + "_"@ + pair + ".sock"@
}

/// The path of the price socket of a pair, given the configured folder if any.
pub fn get_socket_name(configured: Option<String>, exchange_name: &ExchangeName, pair: &String) -> (r:
    String)
    ensures
        r@ == socket_path_of(
            match configured {
                Some(s) => Some(s@),
                None => None,
            },
            *exchange_name,
            pair@,
        ),
{
    let mut r = match configured {
        None => "/tmp/".to_owned(),
        Some(s) => {
            if ends_with_char(s.as_str(), '/') {
                s
            } else {
                let mut t = s;
                push_char(&mut t, '/');
                t
            }
        },
    };
    r.append(exchange_name.as_str());
    r.append("_");
    r.append(pair.as_str());
    r.append(".sock");
    r
}

/// The abstract state of the manager.
pub struct ManagerView<H, S> {
    pub sockets: Map<(ExchangeName, Seq<char>), H>,
    pub binance: BinanceView<S>,
}

/// What the manager does with a pair it is asked to watch.
pub enum PairPlan {
    /// The pair is already watched on that exchange.
    AlreadyWatched,
    /// Open a price socket at this path, then add the pair.
    Bridge(String),
}

/// The result of adding a pair to the manager.
pub enum ManagerAddOutcome {
    AlreadyWatched,
    /// The price socket is kept; the exchange's own outcome.
    Added(BinanceAddOutcome),
}

/// Adding a pair: a pair already watched on the exchange is left alone;
/// otherwise its price socket is kept and the pair goes to its exchange.
pub open spec fn manager_add_pair<H, S>(
    pre: ManagerView<H, S>,
    exchange: ExchangeName,
    pair: Seq<char>,
    handler: H,
    sender: S,
) -> (ManagerView<H, S>, ManagerAddOutcome) {
    if pre.sockets.dom().contains((exchange, pair)) {
        (pre, ManagerAddOutcome::AlreadyWatched)
    } else {
        let (binance, outcome) = match exchange {
            ExchangeName::Binance => binance_add_pair(pre.binance, pair, sender),
        };
        (
            ManagerView { sockets: pre.sockets.insert((exchange, pair), handler), binance },
            ManagerAddOutcome::Added(outcome),
        )
    }
}

pub struct ExchangeManager<H, S> {
    binance: BinanceExchange<S>,
    price_sockets: Registry<(ExchangeName, String), H>,
}

impl<H, S> View for ExchangeManager<H, S> {
    type V = ManagerView<H, S>;

    open spec fn view(&self) -> ManagerView<H, S> {
        ManagerView { sockets: self.sockets_view(), binance: self.binance_view() }
    }
}

impl<H, S> ExchangeManager<H, S> {
    pub closed spec fn sockets_view(&self) -> Map<(ExchangeName, Seq<char>), H> {
        self.price_sockets@
    }

    pub closed spec fn binance_view(&self) -> BinanceView<S> {
        self.binance@
    }

    /// A manager that watches nothing.
    pub fn new() -> (r: Self)
        ensures
            r@.sockets == Map::<(ExchangeName, Seq<char>), H>::empty(),
            r@.binance.pairs == Map::<Seq<char>, S>::empty(),
            !r@.binance.websocket_started,
    {
        ExchangeManager { binance: BinanceExchange::new(), price_sockets: Registry::new() }
    }

    /// Whether the pair is watched on the exchange.
    pub fn is_watched(&self, exchange_name: &ExchangeName, pair: &String) -> (r: bool)
        ensures
            r == self@.sockets.dom().contains((*exchange_name, pair@)),
    {
        let key = (*exchange_name, pair.clone());
        self.price_sockets.contains_key(&key)
    }

    /// What to do for a pair to watch: nothing when it is watched, else open
    /// its price socket at the path derived from the configured folder.
    pub fn plan_add_pair(
        &self,
        exchange_name: &ExchangeName,
        pair: &String,
        configured: Option<String>,
    ) -> (r: PairPlan)
        ensures
            self@.sockets.dom().contains((*exchange_name, pair@)) ==> r == PairPlan::AlreadyWatched,
            !self@.sockets.dom().contains((*exchange_name, pair@)) ==> (r matches PairPlan::Bridge(
                path,
            ) && path@ == socket_path_of(
                match configured {
                    Some(s) => Some(s@),
                    None => None,
                },
                *exchange_name,
                pair@,
            )),
    {
        if self.is_watched(exchange_name, pair) {
            PairPlan::AlreadyWatched
        } else {
            PairPlan::Bridge(get_socket_name(configured, exchange_name, pair))
        }
    }

    /// Watches a pair: keeps its price socket's handler and hands the pair,
    /// with the sender its prices go to, to its exchange.
    pub fn add_pair(&mut self, exchange_name: ExchangeName, pair: String, handler: H, sender: S) -> (r:
        ManagerAddOutcome)
        ensures
            (final(self)@, r) == manager_add_pair(old(self)@, exchange_name, pair@, handler, sender),
    {
        if self.is_watched(&exchange_name, &pair) {
            return ManagerAddOutcome::AlreadyWatched;
        }
        self.price_sockets.insert((exchange_name, pair.clone()), handler);
        let outcome = match exchange_name {
            ExchangeName::Binance => self.binance.add_pair(&pair, sender),
        };
        ManagerAddOutcome::Added(outcome)
    }

    /// The Binance exchange's state.
    pub fn binance(&self) -> (r: &BinanceExchange<S>)
        ensures
            r@ == self@.binance,
    {
        &self.binance
    }

    /// The Binance exchange, for stopping its websocket.
    pub fn stop_binance(&mut self) -> (r: bool)
        ensures
            r == old(self)@.binance.websocket_started,
            final(self)@.sockets == old(self)@.sockets,
            final(self)@.binance.pairs == old(self)@.binance.pairs,
            !final(self)@.binance.websocket_started,
    {
        self.binance.stop_public()
    }
}

/// Every price socket path starts with a folder that ends in `/`, names the
/// exchange and the pair, and ends in `.sock`.
pub proof fn socket_paths_are_well_formed(
    configured: Option<Seq<char>>,
    exchange: ExchangeName,
    pair: Seq<char>,
)
    ensures
        socket_folder(configured).len() > 0,
        socket_folder(configured).last() == '/',
        socket_path_of(configured, exchange, pair) == socket_folder(configured) + exchange_text(
            exchange,
        ) + "_"@ + pair + ".sock"@,
{
    reveal_strlit("/tmp/");
}

/// A configured folder is used as given: the socket folder starts with the
/// configured text and adds at most one `/` to it (none when it already ends
/// in `/`), so every socket path starts with the configured text; with none
/// configured the folder is `/tmp/`.
pub proof fn configured_folder_is_used_as_given(
    configured: Option<Seq<char>>,
    exchange: ExchangeName,
    pair: Seq<char>,
)
    ensures
        configured is None ==> socket_folder(configured) == seq!['/', 't', 'm', 'p', '/'],
        forall|s: Seq<char>|
            configured == Some(s) ==> {
                &&& socket_folder(configured).len() <= s.len() + 1
                &&& socket_folder(configured).subrange(0, s.len() as int) == s
                &&& (s.len() > 0 && s.last() == '/') ==> socket_folder(configured) == s
                &&& socket_path_of(configured, exchange, pair).subrange(0, s.len() as int) == s
            },
{
    reveal_strlit("/tmp/");
    if let Some(s) = configured {
        let folder = socket_folder(configured);
        assert(folder.subrange(0, s.len() as int) =~= s);
        let path = socket_path_of(configured, exchange, pair);
        assert(path.subrange(0, s.len() as int) =~= folder.subrange(0, s.len() as int));
    }
}

/// Asking twice to watch the same pair on the same exchange changes nothing
/// the second time.
pub proof fn watching_twice_changes_nothing<H, S>(
    pre: ManagerView<H, S>,
    exchange: ExchangeName,
    pair: Seq<char>,
    first: (H, S),
    second: (H, S),
)
    ensures
        ({
            let once = manager_add_pair(pre, exchange, pair, first.0, first.1).0;
            manager_add_pair(once, exchange, pair, second.0, second.1) == (
                once,
                ManagerAddOutcome::AlreadyWatched,
            )
        }),
{
}

} // verus!
