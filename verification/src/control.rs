//! Control of the service: the commands it accepts, the interactive prompt's
//! decisions, and the framing of commands on the control socket. This file
//! also holds the checks of the slash-pair prompt, which takes pairs written with a
//! slash (`BTC/USDT`) and writes account credentials as one line.
use vstd::prelude::*;

use crate::text::{concatenate, push_char};

pub mod control;
pub mod framing;

verus! {

/// The number of bytes of a text in UTF-8 (what `str::len` gives).
pub open spec fn utf8_len(s: Seq<char>) -> nat {
    vstd::utf8::encode_utf8(s).len()
}

/// The pieces of a text between occurrences of `c` (what `str::split` gives):
/// always at least one piece.
pub open spec fn split_on(s: Seq<char>, c: char) -> Seq<Seq<char>>
    decreases s.len(),
{
    if s.len() == 0 {
        seq![Seq::empty()]
    } else {
        let init = split_on(s.drop_last(), c);
        if s.last() == c {
            init.push(Seq::empty())
        } else {
            init.update(init.len() - 1, init.last().push(s.last()))
        }
    }
}

pub proof fn lemma_split_on_nonempty(s: Seq<char>, c: char)
    ensures
        split_on(s, c).len() >= 1,
    decreases s.len(),
{
    if s.len() > 0 {
        lemma_split_on_nonempty(s.drop_last(), c);
    }
}

/// A piece of a slash-written pair is three or four bytes long.
pub open spec fn currency_ok(p: Seq<char>) -> bool {
    utf8_len(p) == 3 || utf8_len(p) == 4
}

/// Every piece between slashes is a currency of three or four bytes.
pub open spec fn all_currencies_ok(s: Seq<char>) -> bool {
    forall|i: int| 0 <= i < split_on(s, '/').len() ==> currency_ok(#[trigger] split_on(s, '/')[i])
}

/// The verdict of the slash-pair prompt on a pair: seven bytes are accepted as
/// they are; eight bytes are accepted when the fourth character is a slash
/// and every piece between slashes has three or four bytes.
pub open spec fn slash_pair_verdict(s: Seq<char>) -> Result<(), Seq<char>> {
    if s.len() == 0 {
        Err("Please provide pair."@)
    } else if utf8_len(s) == 7 || (utf8_len(s) == 8 && s.len() > 3 && s[3] == '/'
        && all_currencies_ok(s)) {
        Ok(())
    } else {
        Err("Please provide a valid pair in the form BTC/USDT (all caps, with slash in the middle)."@)
    }
}

fn currencies_ok(s: &str) -> (r: bool)
    ensures
        r == all_currencies_ok(s@),
{
    let n: usize = s.unicode_len();
    let mut current = String::new();
    let mut ok = true;
    let mut i: usize = 0;
    proof {
        assert(s@.take(0) =~= Seq::<char>::empty());
    }
    while i < n
        invariant
            n == s@.len(),
            i <= n,
            split_on(s@.take(i as int), '/').len() >= 1,
            current@ == split_on(s@.take(i as int), '/').last(),
            ok == forall|j: int|
                0 <= j < split_on(s@.take(i as int), '/').len() - 1 ==> currency_ok(
                    #[trigger] split_on(s@.take(i as int), '/')[j],
                ),
        decreases n - i,
    {
        let c = s.get_char(i);
        let ghost before = split_on(s@.take(i as int), '/');
        proof {
            assert(s@.take(i + 1).drop_last() =~= s@.take(i as int));
            assert(s@.take(i + 1).last() == c);
            lemma_split_on_nonempty(s@.take(i + 1), '/');
        }
        if c == '/' {
            let piece_bytes: usize = current.as_str().as_bytes().len();
            let piece_ok = piece_bytes == 3 || piece_bytes == 4;
            let ghost piece = current@;
            ok = ok && piece_ok;
            current = String::new();
            proof {
                let after = split_on(s@.take(i + 1), '/');
                assert(after == before.push(Seq::empty()));
                assert(ok == forall|j: int| 0 <= j < after.len() - 1 ==> currency_ok(#[trigger] after[j])) by {
                    if ok {
                        assert forall|j: int| 0 <= j < after.len() - 1 implies currency_ok(#[trigger] after[j]) by {
                            assert(after[j] == before[j]);
                            if j < before.len() - 1 {
                                assert(currency_ok(before[j]));
                            } else {
                                assert(before[j] == piece);
                            }
                        }
                    } else if piece_ok {
                        let j: int = choose|j: int| 0 <= j < before.len() - 1 && !currency_ok(#[trigger] before[j]);
                        assert(after[j] == before[j]);
                    } else {
                        assert(after[before.len() - 1] == before.last());
                    }
                }
            }
        } else {
            push_char(&mut current, c);
            proof {
                let after = split_on(s@.take(i + 1), '/');
                assert(after == before.update(before.len() - 1, before.last().push(c)));
                assert(ok == forall|j: int| 0 <= j < after.len() - 1 ==> currency_ok(#[trigger] after[j])) by {
                    if !ok {
                        let j: int = choose|j: int| 0 <= j < before.len() - 1 && !currency_ok(#[trigger] before[j]);
                        assert(after[j] == before[j]);
                    }
                }
            }
        }
        i = i + 1;
    }
    proof {
        assert(s@.take(n as int) =~= s@);
    }
    let last_bytes: usize = current.as_str().as_bytes().len();
    let last_ok = last_bytes == 3 || last_bytes == 4;
    proof {
        let parts = split_on(s@, '/');
        if ok && last_ok {
            assert forall|j: int| 0 <= j < parts.len() implies currency_ok(#[trigger] parts[j]) by {
                if j < parts.len() - 1 {
                } else {
                    assert(parts[j] == parts.last());
                }
            }
        } else if !ok {
            let j: int = choose|j: int| 0 <= j < parts.len() - 1 && !currency_ok(#[trigger] parts[j]);
            assert(!currency_ok(parts[j]));
        } else {
            assert(!currency_ok(parts[parts.len() - 1]));
        }
    }
    ok && last_ok
}

/// The slash-pair prompt's check on a pair written with a slash; the error is the
/// text shown to the user.
pub fn validate_slash_pair_input(input: &String) -> (r: Result<(), String>)
    ensures
        match (r, slash_pair_verdict(input@)) {
            (Ok(()), Ok(())) => true,
            (Err(m), Err(v)) => m@ == v,
            _ => false,
        },
{
    let s = input.as_str();
    if s.unicode_len() == 0 {
        return Err("Please provide pair.".to_owned());
    }
    let bytes: usize = s.as_bytes().len();
    if bytes == 7 || (bytes == 8 && s.unicode_len() > 3 && s.get_char(3) == '/' && currencies_ok(s)) {
        Ok(())
    } else {
        Err("Please provide a valid pair in the form BTC/USDT (all caps, with slash in the middle).".to_owned())
    }
}

/// The line the slash-pair prompt writes for account credentials: `key:password`.
pub fn credentials_line(api_key: &str, password: &str) -> (r: String)
    ensures
        r@ == api_key@ + ":"@ + password@,
{
    let mut r = concatenate(api_key, ":");
    r.append(password);
    r
}

/// The slash-pair prompt's check on an entered API key or password: it must
/// not be empty; the error is the text shown to the user.
pub fn validate_credential_input(input: &String) -> (r: Result<(), String>)
    ensures
        r is Ok <==> input@.len() > 0,
        r matches Err(m) ==> m@ == "Please provide API key."@,
{
    if input.as_str().unicode_len() == 0 {
        Err("Please provide API key.".to_owned())
    } else {
        Ok(())
    }
}

} // verus!
