//! Operations on text used across the library, each stated over the
//! character sequence that a string stands for.
use vstd::prelude::*;
use vstd::string::*;

verus! {

/// The characters of `s` with every occurrence of `c` left out.
pub open spec fn without_char(s: Seq<char>, c: char) -> Seq<char>
    decreases s.len(),
{
    if s.len() == 0 {
        s
    } else if s.last() == c {
        without_char(s.drop_last(), c)
    } else {
        without_char(s.drop_last(), c).push(s.last())
    }
}

/// `t` occurs in `s` as a contiguous run of characters.
pub open spec fn has_infix(s: Seq<char>, t: Seq<char>) -> bool {
    exists|i: int| 0 <= i && i + t.len() <= s.len() && #[trigger] s.subrange(i, i + t.len()) == t
}

/// The items written one after another, with `sep` between neighbours.
pub open spec fn join(items: Seq<Seq<char>>, sep: Seq<char>) -> Seq<char>
    decreases items.len(),
{
    if items.len() == 0 {
        Seq::empty()
    } else if items.len() == 1 {
        items[0]
    } else {
        join(items.drop_last(), sep) + sep + items.last()
    }
}

/// Joining one more item after a non-empty list adds the separator and the
/// item at the end.
pub proof fn join_push(items: Seq<Seq<char>>, sep: Seq<char>, item: Seq<char>)
    requires
        items.len() > 0,
    ensures
        join(items.push(item), sep) == join(items, sep) + sep + item,
{
    assert(items.push(item).drop_last() =~= items);
}

/// What `str::to_lowercase` returns for a text: its lowercase equivalent
/// under the Unicode `Lowercase` property.
pub uninterp spec fn lowercase(s: Seq<char>) -> Seq<char>;

/// Calls `str::to_lowercase`; the result is named by `lowercase`.
#[verifier::external_body]
pub(crate) fn to_lowercase(s: &str) -> (r: String)
    ensures
        r@ == lowercase(s@),
{
    s.to_lowercase()
}

/// Calls `String::push`: appends one character.
#[verifier::external_body]
pub(crate) fn push_char(s: &mut String, c: char)
    ensures
        final(s)@ == old(s)@.push(c),
{
    s.push(c);
}

/// The characters of a text, one per element.
pub fn chars_of(s: &str) -> (r: Vec<char>)
    ensures
        r@ == s@,
{
    let mut r: Vec<char> = Vec::new();
    let n: usize = s.unicode_len();
    let mut i: usize = 0;
    while i < n
        invariant
            n == s@.len(),
            i <= n,
            r@ == s@.subrange(0, i as int),
        decreases n - i,
    {
        r.push(s.get_char(i));
        i = i + 1;
        assert(r@ =~= s@.subrange(0, i as int));
    }
    assert(r@ =~= s@);
    r
}

/// Copy of `s` with every `c` removed (`s.replace(c, "")`).
pub fn remove_char(s: &str, c: char) -> (r: String)
    ensures
        r@ == without_char(s@, c),
{
    let mut r = String::new();
    let n: usize = s.unicode_len();
    let mut i: usize = 0;
    while i < n
        invariant
            n == s@.len(),
            i <= n,
            r@ == without_char(s@.subrange(0, i as int), c),
        decreases n - i,
    {
        let x = s.get_char(i);
        proof {
            let prefix = s@.subrange(0, i as int);
            assert(s@.subrange(0, i + 1).drop_last() =~= prefix);
        }
        if x != c {
            push_char(&mut r, x);
        }
        i = i + 1;
    }
    assert(s@.subrange(0, n as int) =~= s@);
    r
}

/// Whether two texts hold the same characters.
pub fn str_equal(a: &str, b: &str) -> (r: bool)
    ensures
        r == (a@ == b@),
{
    let x = chars_of(a);
    let y = chars_of(b);
    if x.len() != y.len() {
        return false;
    }
    let mut i: usize = 0;
    while i < x.len()
        invariant
            x@ == a@,
            y@ == b@,
            x@.len() == y@.len(),
            i <= x@.len(),
            forall|j: int| 0 <= j < i ==> x@[j] == y@[j],
        decreases x@.len() - i,
    {
        if x[i] != y[i] {
            return false;
        }
        i = i + 1;
    }
    assert(x@ =~= y@);
    true
}

/// Whether `needle` occurs in `hay` (`str::contains` with a text pattern).
pub fn contains_text(hay: &str, needle: &str) -> (r: bool)
    ensures
        r == has_infix(hay@, needle@),
{
    let h = chars_of(hay);
    let t = chars_of(needle);
    if t.len() > h.len() {
        assert(!has_infix(hay@, needle@));
        return false;
    }
    let hl: usize = h.len();
    let last: usize = hl - t.len();
    let mut start: usize = 0;
    while start <= last
        invariant
            h@ == hay@,
            t@ == needle@,
            hl == h@.len(),
            t@.len() <= h@.len(),
            last == h@.len() - t@.len(),
            start <= last + 1,
            forall|k: int| 0 <= k < start ==> #[trigger] h@.subrange(k, k + t@.len()) != t@,
        decreases last + 1 - start,
    {
        let mut j: usize = 0;
        while j < t.len() && h[start + j] == t[j]
            invariant
                h@ == hay@,
                t@ == needle@,
                start <= last,
                start + t@.len() <= h@.len(),
                hl == h@.len(),
                t@.len() <= h@.len(),
                last == h@.len() - t@.len(),
                j <= t@.len(),
                forall|m: int| 0 <= m < j ==> h@[start + m] == t@[m],
            decreases t@.len() - j,
        {
            j = j + 1;
        }
        if j == t.len() {
            assert(h@.subrange(start as int, start + t@.len()) =~= t@);
            return true;
        }
        assert(h@.subrange(start as int, start + t@.len())[j as int] != t@[j as int]);
        start = start + 1;
    }
    assert forall|i: int| 0 <= i && i + needle@.len() <= hay@.len() implies
        #[trigger] hay@.subrange(i, i + needle@.len()) != needle@ by {
        assert(i < start);
    }
    false
}

/// Whether the last character of `s` is `c`.
pub fn ends_with_char(s: &str, c: char) -> (r: bool)
    ensures
        r == (s@.len() > 0 && s@.last() == c),
{
    let n: usize = s.unicode_len();
    if n == 0 {
        false
    } else {
        s.get_char(n - 1) == c
    }
}

/// `s` followed by `t`, as a new string.
pub fn concatenate(s: &str, t: &str) -> (r: String)
    ensures
        r@ == s@ + t@,
{
    let mut r = s.to_owned();
    r.append(t);
    r
}

} // verus!
