//! The subscription request sent to Binance for a set of pairs, as the JSON
//! object `{"method":"SUBSCRIBE","params":[...]}`.
use vstd::prelude::*;

use crate::json::{json_string, json_string_array, strings_to_json};
use crate::text::{join, join_push, lowercase, to_lowercase};

verus! {

/// The book-ticker channel of a pair already in lower case.
pub open spec fn book_ticker_channel(lowered: Seq<char>) -> Seq<char> {
    lowered + "@bookTicker"@
}

/// The JSON subscription request for the given channels.
pub open spec fn subscription_request(channels: Seq<Seq<char>>) -> Seq<char> {
    "{\"method\":\"SUBSCRIBE\",\"params\":"@ + json_string_array(channels) + "}"@
}

/// The subscription request for pairs that are already in lower case.
pub fn subscription_message_from_lowercase(lowered: &Vec<String>) -> (r: String)
    ensures
        r@ == subscription_request(lowered@.map_values(|l: String| book_ticker_channel(l@))),
{
    let mut channels: Vec<String> = Vec::new();
    let mut i: usize = 0;
    while i < lowered.len()
        invariant
            i <= lowered@.len(),
            channels@.len() == i,
            forall|j: int|
                0 <= j < i ==> #[trigger] channels@[j]@ == book_ticker_channel(lowered@[j]@),
        decreases lowered@.len() - i,
    {
        let mut channel = lowered[i].clone();
        channel.append("@bookTicker");
        channels.push(channel);
        i = i + 1;
    }
    let ghost names = channels@.map_values(|s: String| s@);
    assert(names =~= lowered@.map_values(|l: String| book_ticker_channel(l@)));
    match strings_to_json(&channels) {
        Ok(params) => {
            let mut r = String::new();
            r.append("{\"method\":\"SUBSCRIBE\",\"params\":");
            r.append(params.as_str());
            r.append("}");
            r
        },
        Err(_) => {
            proof {
                assert(false);
            }
            String::new()
        },
    }
}

/// The subscription request for a set of pairs, given as a list with no
/// pair twice: each pair, in the order given, is lower-cased and becomes its
/// `@bookTicker` channel.
pub fn create_binance_subscription_message(pairs: &Vec<String>) -> (r: String)
    requires
        forall|i: int, j: int|
            0 <= i < j < pairs@.len() ==> #[trigger] pairs@[i]@ != #[trigger] pairs@[j]@,
    ensures
        r@ == subscription_request(
            pairs@.map_values(|p: String| book_ticker_channel(lowercase(p@))),
        ),
{
    let mut lowered: Vec<String> = Vec::new();
    let mut i: usize = 0;
    while i < pairs.len()
        invariant
            i <= pairs@.len(),
            lowered@.len() == i,
            forall|j: int| 0 <= j < i ==> #[trigger] lowered@[j]@ == lowercase(pairs@[j]@),
        decreases pairs@.len() - i,
    {
        lowered.push(to_lowercase(pairs[i].as_str()));
        i = i + 1;
    }
    let r = subscription_message_from_lowercase(&lowered);
    assert(lowered@.map_values(|l: String| book_ticker_channel(l@)) =~= pairs@.map_values(
        |p: String| book_ticker_channel(lowercase(p@)),
    ));
    r
}

/// The request lists the channel of every pair, in order: with no pair its
/// params are `[]`; with one pair they hold that pair's lower-cased
/// `@bookTicker` channel; and one more pair after others puts `,` and its
/// channel before the closing `]}` of the request for the others.
pub proof fn subscription_lists_every_pair(pairs: Seq<String>, pair: String)
    ensures
        subscription_request(
            Seq::<String>::empty().map_values(|p: String| book_ticker_channel(lowercase(p@))),
        ) == "{\"method\":\"SUBSCRIBE\",\"params\":"@ + seq!['[', ']', '}'],
        subscription_request(
            seq![pair].map_values(|p: String| book_ticker_channel(lowercase(p@))),
        ) == "{\"method\":\"SUBSCRIBE\",\"params\":"@ + seq!['['] + json_string(
            lowercase(pair@) + "@bookTicker"@,
        ) + seq![']', '}'],
        pairs.len() > 0 ==> subscription_request(
            pairs.push(pair).map_values(|p: String| book_ticker_channel(lowercase(p@))),
        ) == subscription_request(
            pairs.map_values(|p: String| book_ticker_channel(lowercase(p@))),
        ).drop_last().drop_last() + seq![','] + json_string(lowercase(pair@) + "@bookTicker"@)
            + seq![']', '}'],
{
    reveal_strlit("}");
    let f = |p: String| book_ticker_channel(lowercase(p@));
    let g = |s: Seq<char>| json_string(s);
    let c = book_ticker_channel(lowercase(pair@));
    assert(Seq::<String>::empty().map_values(f).map_values(g) =~= Seq::<Seq<char>>::empty());
    assert(seq![pair].map_values(f).map_values(g) =~= seq![json_string(c)]);
    if pairs.len() > 0 {
        let before = pairs.map_values(f).map_values(g);
        assert(pairs.push(pair).map_values(f).map_values(g) =~= before.push(json_string(c)));
        join_push(before, seq![','], json_string(c));
        let whole = subscription_request(pairs.map_values(f));
        assert(whole =~= "{\"method\":\"SUBSCRIBE\",\"params\":"@ + seq!['['] + join(
            before,
            seq![','],
        ) + seq![']', '}']);
        assert(whole.drop_last().drop_last() =~= "{\"method\":\"SUBSCRIBE\",\"params\":"@
            + seq!['['] + join(before, seq![',']));
    }
}

} // verus!
