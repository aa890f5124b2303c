//! Binance: the subscription message written by hand (one channel per pair,
//! pairs without their separator), and the submodules for the live exchange.
use vstd::prelude::*;

use crate::registry::Registry;
use crate::text::{join, join_push, lowercase, to_lowercase, without_char};

pub mod commands;
pub mod exchange;
pub mod messages;
pub mod websocket;

verus! {

/// The quoted channel for a pair already in lower case: the pair without
/// its `_` separator, followed by `@bookTicker`.
pub open spec fn quoted_channel(lowered: Seq<char>) -> Seq<char> {
    "\""@ + without_char(lowered, '_') + "@bookTicker\""@
}

/// The subscription request for the given quoted channels, separated by `", "`.
pub open spec fn hand_written_subscription(channels: Seq<Seq<char>>) -> Seq<char> {
    "{\"method\": \"SUBSCRIBE\", \"params\": ["@ + join(channels, ", "@) + "]}"@
}

fn quote_channel(lowered: &String) -> (r: String)
    ensures
        r@ == quoted_channel(lowered@),
{
    let mut r = String::new();
    r.append("\"");
    let stripped = crate::text::remove_char(lowered.as_str(), '_');
    r.append(stripped.as_str());
    r.append("@bookTicker\"");
    r
}

/// The subscription request for pairs that are already in lower case.
pub fn subscription_message_from_lowercase(lowered: &Vec<String>) -> (r: String)
    ensures
        r@ == hand_written_subscription(lowered@.map_values(|l: String| quoted_channel(l@))),
{
    let ghost channels = lowered@.map_values(|l: String| quoted_channel(l@));
    let mut body = String::new();
    let mut i: usize = 0;
    while i < lowered.len()
        invariant
            i <= lowered@.len(),
            channels == lowered@.map_values(|l: String| quoted_channel(l@)),
            body@ == join(channels.take(i as int), ", "@),
        decreases lowered@.len() - i,
    {
        let channel = quote_channel(&lowered[i]);
        proof {
            assert(channels.take(i + 1).drop_last() =~= channels.take(i as int));
            assert(channels.take(i + 1).last() == channel@);
        }
        if i > 0 {
            body.append(", ");
        } else {
            assert(channels.take(1) =~= seq![channel@]);
        }
        body.append(channel.as_str());
        i = i + 1;
    }
    assert(channels.take(lowered@.len() as int) =~= channels);
    let mut r = String::new();
    r.append("{\"method\": \"SUBSCRIBE\", \"params\": [");
    r.append(body.as_str());
    r.append("]}");
    r
}

/// The subscription request for the given pairs: each pair is lower-cased,
/// loses its `_` separator and becomes a `@bookTicker` channel.
pub fn create_binance_subscription_message(pairs: &Vec<String>) -> (r: String)
    ensures
        r@ == hand_written_subscription(
            pairs@.map_values(|p: String| quoted_channel(lowercase(p@))),
        ),
{
    let mut lowered: Vec<String> = Vec::new();
    let mut i: usize = 0;
    while i < pairs.len()
        invariant
            i <= pairs@.len(),
            lowered@.len() == i,
            forall|j: int| 0 <= j < i ==> #[trigger] lowered@[j]@ == lowercase(pairs@[j]@),
        decreases pairs@.len() - i,
    {
        lowered.push(to_lowercase(pairs[i].as_str()));
        i = i + 1;
    }
    let r = subscription_message_from_lowercase(&lowered);
    assert(lowered@.map_values(|l: String| quoted_channel(l@)) =~= pairs@.map_values(
        |p: String| quoted_channel(lowercase(p@)),
    ));
    r
}

/// The subscription request for one pair alone.
pub open spec fn single_subscription(pair: Seq<char>) -> Seq<char> {
    messages::subscription_request(seq![messages::book_ticker_channel(lowercase(pair))])
}

/// Registering one pair: a known pair changes nothing and queues nothing; a
/// new pair is recorded and queues its own subscription request.
pub open spec fn subscribe_step(known: Map<Seq<char>, ()>, pair: Seq<char>) -> (
    Map<Seq<char>, ()>,
    Option<Seq<char>>,
) {
    if known.dom().contains(pair) {
        (known, None)
    } else {
        (known.insert(pair, ()), Some(single_subscription(pair)))
    }
}

/// Registering pairs one after another: the registry at the end, and the
/// subscription requests queued, in order.
pub open spec fn subscribe_all(known: Map<Seq<char>, ()>, pairs: Seq<Seq<char>>) -> (
    Map<Seq<char>, ()>,
    Seq<Seq<char>>,
)
    decreases pairs.len(),
{
    if pairs.len() == 0 {
        (known, Seq::empty())
    } else {
        let (before, queued) = subscribe_all(known, pairs.drop_last());
        let (after, message) = subscribe_step(before, pairs.last());
        (
            after,
            match message {
                Some(m) => queued.push(m),
                None => queued,
            },
        )
    }
}

/// The pairs that are neither known nor came earlier, in order of first
/// arrival.
pub open spec fn first_arrivals(known: Set<Seq<char>>, pairs: Seq<Seq<char>>) -> Seq<Seq<char>>
    decreases pairs.len(),
{
    if pairs.len() == 0 {
        Seq::empty()
    } else {
        let earlier = first_arrivals(known, pairs.drop_last());
        if known.contains(pairs.last()) || pairs.drop_last().contains(pairs.last()) {
            earlier
        } else {
            earlier.push(pairs.last())
        }
    }
}

/// Registering a sequence of pairs, with repeats, records every pair once:
/// the registry ends up holding the known pairs and the given ones; each
/// pair that was not known gets exactly one subscription request, in the
/// order in which the pairs first arrived; repeats and known pairs queue
/// nothing.
pub proof fn subscribe_once_per_pair(known: Map<Seq<char>, ()>, pairs: Seq<Seq<char>>)
    ensures
        forall|p: Seq<char>|
            #![trigger subscribe_all(known, pairs).0.dom().contains(p)]
            subscribe_all(known, pairs).0.dom().contains(p) <==> known.dom().contains(p)
                || pairs.contains(p),
        subscribe_all(known, pairs).1 == first_arrivals(known.dom(), pairs).map_values(
            |p: Seq<char>| single_subscription(p),
        ),
        first_arrivals(known.dom(), pairs).no_duplicates(),
        forall|p: Seq<char>|
            #![trigger first_arrivals(known.dom(), pairs).contains(p)]
            first_arrivals(known.dom(), pairs).contains(p) <==> pairs.contains(p)
                && !known.dom().contains(p),
    decreases pairs.len(),
{
    if pairs.len() > 0 {
        let init = pairs.drop_last();
        let last = pairs.last();
        subscribe_once_per_pair(known, init);
        let (before, queued) = subscribe_all(known, init);
        let earlier = first_arrivals(known.dom(), init);
        assert(before.dom().contains(last) <==> known.dom().contains(last) || init.contains(last));
        assert forall|p: Seq<char>| pairs.contains(p) <==> init.contains(p) || p == last by {
            if pairs.contains(p) {
                let i: int = choose|i: int| 0 <= i < pairs.len() && pairs[i] == p;
                if i < init.len() {
                    assert(init[i] == p);
                }
            }
            if init.contains(p) {
                let i: int = choose|i: int| 0 <= i < init.len() && init[i] == p;
                assert(pairs[i] == p);
            }
            if p == last {
                assert(pairs[pairs.len() - 1] == p);
            }
        }
        if !(known.dom().contains(last) || init.contains(last)) {
            let f = earlier.push(last);
            assert(f.map_values(|p: Seq<char>| single_subscription(p)) =~= earlier.map_values(
                |p: Seq<char>| single_subscription(p),
            ).push(single_subscription(last)));
            assert(!earlier.contains(last));
            assert forall|i: int, j: int| 0 <= i < f.len() && 0 <= j < f.len() && i != j implies f[i]
                != f[j] by {
                if i < earlier.len() && j < earlier.len() {
                } else if i < earlier.len() {
                    assert(earlier.contains(f[i]));
                } else {
                    assert(earlier.contains(f[j]));
                }
            }
            assert forall|p: Seq<char>| f.contains(p) <==> pairs.contains(p) && !known.dom().contains(
                p,
            ) by {
                if f.contains(p) {
                    let i: int = choose|i: int| 0 <= i < f.len() && f[i] == p;
                    if i < earlier.len() {
                        assert(earlier.contains(p));
                    }
                }
                if pairs.contains(p) && !known.dom().contains(p) {
                    if p == last {
                        assert(f[f.len() - 1] == p);
                    } else {
                        assert(earlier.contains(p));
                        let i: int = choose|i: int| 0 <= i < earlier.len() && earlier[i] == p;
                        assert(f[i] == p);
                    }
                }
            }
        } else {
            assert forall|p: Seq<char>| earlier.contains(p) <==> pairs.contains(p) && !known.dom().contains(
                p,
            ) by {
                if p == last && pairs.contains(p) && !known.dom().contains(p) {
                    assert(init.contains(p));
                }
            }
        }
    }
}

/// Registers a pair with the websocket. A pair not yet registered is
/// recorded and its subscription request (for that pair alone) returned; a
/// registered pair gives nothing.
pub fn subscribe_new_pair(registry: &mut Registry<String, ()>, pair: String) -> (r: Option<String>)
    ensures
        old(registry)@.dom().contains(pair@) ==> r is None && final(registry)@ == old(registry)@,
        !old(registry)@.dom().contains(pair@) ==> (r matches Some(m) && m@
            == messages::subscription_request(
            seq![messages::book_ticker_channel(lowercase(pair@))],
        )) && final(registry)@ == old(registry)@.insert(pair@, ()),
        (
            final(registry)@,
            match r {
                Some(m) => Some(m@),
                None => None,
            },
        ) == subscribe_step(old(registry)@, pair@),
{
    if registry.contains_key(&pair) {
        return None;
    }
    registry.insert(pair.clone(), ());
    let mut single: Vec<String> = Vec::new();
    single.push(pair);
    let message = messages::create_binance_subscription_message(&single);
    assert(single@.map_values(|p: String| messages::book_ticker_channel(lowercase(p@))) =~= seq![
        messages::book_ticker_channel(lowercase(pair@)),
    ]);
    Some(message)
}

/// The hand-written request lists the channel of every pair, in order: with
/// no pair its params are `[]`; with one pair they hold that pair's quoted
/// channel; and one more pair after others puts `, ` and its channel before
/// the closing `]}` of the request for the others.
pub proof fn hand_written_subscription_lists_every_pair(pairs: Seq<String>, pair: String)
    ensures
        hand_written_subscription(
            Seq::<String>::empty().map_values(|p: String| quoted_channel(lowercase(p@))),
        ) == "{\"method\": \"SUBSCRIBE\", \"params\": ["@ + seq![']', '}'],
        hand_written_subscription(
            seq![pair].map_values(|p: String| quoted_channel(lowercase(p@))),
        ) == "{\"method\": \"SUBSCRIBE\", \"params\": ["@ + seq!['"'] + without_char(
            lowercase(pair@),
            '_',
        ) + "@bookTicker"@ + seq!['"', ']', '}'],
        pairs.len() > 0 ==> hand_written_subscription(
            pairs.push(pair).map_values(|p: String| quoted_channel(lowercase(p@))),
        ) == hand_written_subscription(
            pairs.map_values(|p: String| quoted_channel(lowercase(p@))),
        ).drop_last().drop_last() + seq![',', ' ', '"'] + without_char(lowercase(pair@), '_')
            + "@bookTicker"@ + seq!['"', ']', '}'],
{
    reveal_strlit("]}");
    reveal_strlit(", ");
    reveal_strlit("\"");
    reveal_strlit("@bookTicker\"");
    reveal_strlit("@bookTicker");
    let f = |p: String| quoted_channel(lowercase(p@));
    let c = quoted_channel(lowercase(pair@));
    assert(c =~= seq!['"'] + without_char(lowercase(pair@), '_') + "@bookTicker"@ + seq!['"']);
    assert(Seq::<String>::empty().map_values(f) =~= Seq::<Seq<char>>::empty());
    assert(seq![pair].map_values(f) =~= seq![c]);
    if pairs.len() > 0 {
        let before = pairs.map_values(f);
        assert(pairs.push(pair).map_values(f) =~= before.push(c));
        join_push(before, ", "@, c);
        let whole = hand_written_subscription(before);
        assert(whole.drop_last().drop_last() =~= "{\"method\": \"SUBSCRIBE\", \"params\": ["@
            + join(before, ", "@));
    }
}

} // verus!
