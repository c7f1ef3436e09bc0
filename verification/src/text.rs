//! Text primitives that the rest of the library builds on.
//!
//! The primitives rest on the standard library, one function each. Where
//! the standard library's behaviour is a short statement, the contract states
//! it; where it is governed by Unicode tables or takes pages to state, the
//! result is given a name and the contract equates the two. What is built
//! on the primitives is verified.

use vstd::prelude::*;

verus! {

/// `needle` occurs in `hay` as a contiguous run of characters.
pub open spec fn contains_text(hay: Seq<char>, needle: Seq<char>) -> bool {
    exists|i: int|
        0 <= i && i + needle.len() <= hay.len() && #[trigger] hay.subrange(i, i + needle.len())
            == needle
}

/// `prefix` is an initial run of `s`.
pub open spec fn has_prefix(s: Seq<char>, prefix: Seq<char>) -> bool {
    prefix.len() <= s.len() && s.subrange(0, prefix.len() as int) == prefix
}

/// What remains of `s` after `prefix`, when `s` begins with it.
pub open spec fn stripped_prefix(s: Seq<char>, prefix: Seq<char>) -> Option<Seq<char>> {
    if has_prefix(s, prefix) {
        Some(s.subrange(prefix.len() as int, s.len() as int))
    } else {
        None
    }
}

/// The lowercase form of a string, as `str::to_lowercase` computes it from
/// the Unicode case tables.
pub uninterp spec fn lowercase_of(s: Seq<char>) -> Seq<char>;

/// A string without its leading and trailing Unicode whitespace, as
/// `str::trim` computes it.
pub uninterp spec fn trimmed(s: Seq<char>) -> Seq<char>;

/// The lines of a text, as `str::lines` yields them.
pub uninterp spec fn lines_of(s: Seq<char>) -> Seq<Seq<char>>;

/// A string with every occurrence of `from` replaced by `to`, as
/// `str::replace` computes it.
pub uninterp spec fn replaced(s: Seq<char>, from: Seq<char>, to: Seq<char>) -> Seq<char>;

/// The unsigned 64-bit number that a decimal string denotes, as
/// `str::parse::<u64>` reads it; `None` where it rejects the string.
pub uninterp spec fn parsed_u64(s: Seq<char>) -> Option<u64>;

/// The signed 64-bit number that a decimal string denotes, as
/// `str::parse::<i64>` reads it; `None` where it rejects the string.
pub uninterp spec fn parsed_i64(s: Seq<char>) -> Option<i64>;

/// The unsigned 32-bit number that a decimal string denotes, as
/// `str::parse::<u32>` reads it; `None` where it rejects the string.
pub uninterp spec fn parsed_u32(s: Seq<char>) -> Option<u32>;

/// Calls `str::to_lowercase`. The result is named, not described.
#[verifier::external_body]
pub(crate) fn to_lowercase(s: &str) -> (r: String)
    ensures
        r@ == lowercase_of(s@),
{
    s.to_lowercase()
}

/// Calls `str::trim` and copies the slice it returns. The result is named,
/// not described.
#[verifier::external_body]
pub(crate) fn trim(s: &str) -> (r: String)
    ensures
        r@ == trimmed(s@),
{
    s.trim().to_string()
}

/// Calls `str::lines` and collects the lines in order. The result is named,
/// not described.
#[verifier::external_body]
pub(crate) fn lines(s: &str) -> (r: Vec<String>)
    ensures
        r.deep_view() == lines_of(s@),
{
    s.lines().map(|l| l.to_string()).collect()
}

/// Calls `str::replace`. The result is named, not described.
#[verifier::external_body]
pub(crate) fn replace(s: &str, from: &str, to: &str) -> (r: String)
    ensures
        r@ == replaced(s@, from@, to@),
{
    s.replace(from, to)
}

/// Calls `str::parse::<u64>`, dropping the error's detail. The result is
/// named, not described.
#[verifier::external_body]
pub(crate) fn parse_u64(s: &str) -> (r: Option<u64>)
    ensures
        r == parsed_u64(s@),
{
    s.parse::<u64>().ok()
}

/// Calls `str::parse::<i64>`, dropping the error's detail. The result is
/// named, not described.
#[verifier::external_body]
pub(crate) fn parse_i64(s: &str) -> (r: Option<i64>)
    ensures
        r == parsed_i64(s@),
{
    s.parse::<i64>().ok()
}

/// Calls `str::parse::<u32>`, dropping the error's detail. The result is
/// named, not described.
#[verifier::external_body]
pub(crate) fn parse_u32(s: &str) -> (r: Option<u32>)
    ensures
        r == parsed_u32(s@),
{
    s.parse::<u32>().ok()
}

/// Calls `str::contains` with a string pattern: true exactly when the
/// pattern occurs in the text as a contiguous run.
#[verifier::external_body]
pub(crate) fn contains(hay: &str, needle: &str) -> (r: bool)
    ensures
        r == contains_text(hay@, needle@),
{
    hay.contains(needle)
}

/// Calls `str::strip_prefix` with a string pattern and copies the remainder:
/// the text after the prefix when the text begins with it, `None` otherwise.
#[verifier::external_body]
pub(crate) fn strip_prefix(s: &str, prefix: &str) -> (r: Option<String>)
    ensures
        r.deep_view() == stripped_prefix(s@, prefix@),
{
    s.strip_prefix(prefix).map(|rest| rest.to_string())
}

/// Calls `==` on two string slices: true exactly when they hold the same
/// characters.
#[verifier::external_body]
pub(crate) fn same_text(a: &str, b: &str) -> (r: bool)
    ensures
        r == (a@ == b@),
{
    a == b
}

/// The first position at which `key` occurs in `keys`, if any.
pub open spec fn first_index_of(keys: Seq<Seq<char>>, key: Seq<char>) -> Option<int>
    decreases keys.len(),
{
    if keys.len() == 0 {
        None
    } else {
        match first_index_of(keys.drop_last(), key) {
            Some(i) => Some(i),
            None => if keys.last() == key {
                Some(keys.len() - 1)
            } else {
                None
            },
        }
    }
}

/// `first_index_of` finds the least position holding the key, and finds
/// nothing exactly when no position holds it.
pub proof fn lemma_first_index_of(keys: Seq<Seq<char>>, key: Seq<char>)
    ensures
        match first_index_of(keys, key) {
            Some(i) => 0 <= i < keys.len() && keys[i] == key && forall|j: int|
                0 <= j < i ==> keys[j] != key,
            None => forall|j: int| 0 <= j < keys.len() ==> keys[j] != key,
        },
        first_index_of(keys, key) is Some <==> keys.contains(key),
    decreases keys.len(),
{
    if keys.len() > 0 {
        lemma_first_index_of(keys.drop_last(), key);
        match first_index_of(keys.drop_last(), key) {
            Some(i) => {
                assert(keys.drop_last()[i] == keys[i]);
                assert forall|j: int| 0 <= j < i implies keys[j] != key by {
                    assert(keys.drop_last()[j] == keys[j]);
                }
            },
            None => {
                assert forall|j: int| 0 <= j < keys.len() - 1 implies keys[j] != key by {
                    assert(keys.drop_last()[j] == keys[j]);
                }
            },
        }
    }
}

/// Finds the first string of `items` equal to `key`.
pub fn position(items: &Vec<String>, key: &str) -> (r: Option<usize>)
    ensures
        match r {
            Some(i) => first_index_of(items.deep_view(), key@) == Some(i as int),
            None => first_index_of(items.deep_view(), key@) is None,
        },
{
    let mut i: usize = 0;
    while i < items.len()
        invariant
            i <= items.len(),
            forall|j: int| 0 <= j < i ==> items[j]@ != key@,
        decreases items.len() - i,
    {
        if same_text(items[i].as_str(), key) {
            proof {
                lemma_first_index_of(items.deep_view(), key@);
                assert(items.deep_view()[i as int] == key@);
            }
            return Some(i);
        }
        i += 1;
    }
    proof {
        lemma_first_index_of(items.deep_view(), key@);
        if first_index_of(items.deep_view(), key@) is Some {
            let k = first_index_of(items.deep_view(), key@).unwrap();
            assert(items.deep_view()[k] == items[k]@);
        }
    }
    None
}

/// Whether `key` is among `items`.
pub fn contains_string(items: &Vec<String>, key: &str) -> (r: bool)
    ensures
        r == items.deep_view().contains(key@),
{
    proof {
        lemma_first_index_of(items.deep_view(), key@);
    }
    position(items, key).is_some()
}

/// Builds `a` followed by `b`.
pub fn concat2(a: &str, b: &str) -> (r: String)
    ensures
        r@ == a@ + b@,
{
    String::from_str(a).concat(b)
}

/// Builds `a` followed by `b` followed by `c`.
pub fn concat3(a: &str, b: &str, c: &str) -> (r: String)
    ensures
        r@ == a@ + b@ + c@,
{
    String::from_str(a).concat(b).concat(c)
}


/// The pieces that a separator cuts a text into, in order, as `str::split`
/// yields them.
pub uninterp spec fn pieces_of(s: Seq<char>, separator: Seq<char>) -> Seq<Seq<char>>;

/// Calls `str::split` with a string separator and collects the pieces in
/// order. The result is named, not described.
#[verifier::external_body]
pub(crate) fn split(s: &str, separator: &str) -> (r: Vec<String>)
    ensures
        r.deep_view() == pieces_of(s@, separator@),
{
    s.split(separator).map(|piece| piece.to_string()).collect()
}

/// The first of the pieces that a separator cuts a text into; the text
/// itself where there is no piece.
pub open spec fn before_first(s: Seq<char>, separator: Seq<char>) -> Seq<char> {
    if pieces_of(s, separator).len() > 0 {
        pieces_of(s, separator)[0]
    } else {
        s
    }
}

/// The part of a text that precedes the first occurrence of a separator:
/// see [`before_first`].
pub fn split_first(s: &str, separator: &str) -> (r: String)
    ensures
        r@ == before_first(s@, separator@),
{
    let pieces = split(s, separator);
    if pieces.len() > 0 {
        assert(pieces.deep_view()[0] == pieces[0]@);
        pieces[0].clone()
    } else {
        String::from_str(s)
    }
}

/// Whether two optional strings are both absent or hold the same
/// characters.
pub fn same_opt_text(a: &Option<String>, b: &Option<String>) -> (r: bool)
    ensures
        r == (a.deep_view() == b.deep_view()),
{
    match (a, b) {
        (Some(x), Some(y)) => same_text(x.as_str(), y.as_str()),
        (None, None) => true,
        _ => false,
    }
}

/// The strings of a list without repetitions: the first occurrence of each
/// stays, in order.
pub open spec fn deduped(items: Seq<Seq<char>>) -> Seq<Seq<char>>
    decreases items.len(),
{
    if items.len() == 0 {
        Seq::empty()
    } else {
        let rest = deduped(items.drop_last());
        if rest.contains(items.last()) {
            rest
        } else {
            rest.push(items.last())
        }
    }
}

/// A list without repetitions holds no string twice, and holds exactly
/// the strings of the list it was made from.
pub proof fn lemma_deduped(items: Seq<Seq<char>>)
    ensures
        forall|i: int, j: int|
            0 <= i < j < deduped(items).len() ==> #[trigger] deduped(items)[i] != #[trigger] deduped(
                items,
            )[j],
        forall|x: Seq<char>| #[trigger] deduped(items).contains(x) <==> items.contains(x),
    decreases items.len(),
{
    if items.len() > 0 {
        let init = items.drop_last();
        let last = items.last();
        lemma_deduped(init);
        let rest = deduped(init);
        let all = deduped(items);
        assert forall|x: Seq<char>| #[trigger] all.contains(x) <==> items.contains(x) by {
            if all.contains(x) {
                let k = choose|k: int| 0 <= k < all.len() && all[k] == x;
                if k < rest.len() {
                    assert(rest[k] == x);
                    assert(rest.contains(x));
                    let i = choose|i: int| 0 <= i < init.len() && init[i] == x;
                    assert(items[i] == x);
                } else {
                    assert(items[items.len() - 1] == x);
                }
            }
            if items.contains(x) {
                let i = choose|i: int| 0 <= i < items.len() && items[i] == x;
                if i < init.len() {
                    assert(init[i] == x);
                    assert(init.contains(x));
                    assert(rest.contains(x));
                    let k = choose|k: int| 0 <= k < rest.len() && rest[k] == x;
                    assert(all[k] == x);
                } else {
                    if rest.contains(x) {
                        let k = choose|k: int| 0 <= k < rest.len() && rest[k] == x;
                        assert(all[k] == x);
                    } else {
                        assert(all[all.len() - 1] == x);
                    }
                }
            }
        }
        assert forall|i: int, j: int| 0 <= i < j < all.len() implies #[trigger] all[i]
            != #[trigger] all[j] by {
            if j < rest.len() {
                assert(rest[i] != rest[j]);
            } else {
                assert(all[i] == rest[i]);
                assert(rest.contains(rest[i]));
            }
        }
    }
}

/// Drops the repetitions of a list of strings: see [`deduped`].
pub fn dedup_strings(items: &Vec<String>) -> (r: Vec<String>)
    ensures
        r.deep_view() == deduped(items.deep_view()),
{
    let mut out: Vec<String> = Vec::new();
    let mut i: usize = 0;
    assert(items.deep_view().take(0) =~= Seq::empty());
    assert(out.deep_view() =~= Seq::empty());
    while i < items.len()
        invariant
            i <= items.len(),
            out.deep_view() == deduped(items.deep_view().take(i as int)),
        decreases items.len() - i,
    {
        let ghost before = out.deep_view();
        proof {
            let next = items.deep_view().take(i + 1);
            assert(next.drop_last() =~= items.deep_view().take(i as int));
            assert(next.last() == items[i as int]@);
        }
        if !contains_string(&out, items[i].as_str()) {
            out.push(items[i].clone());
            assert(out.deep_view() =~= before.push(items[i as int]@));
        }
        i += 1;
    }
    assert(items.deep_view().take(items.len() as int) =~= items.deep_view());
    out
}

/// The character that writes a digit.
pub open spec fn digit_text(d: nat) -> Seq<char> {
    if d == 0 {
        "0"@
    } else if d == 1 {
        "1"@
    } else if d == 2 {
        "2"@
    } else if d == 3 {
        "3"@
    } else if d == 4 {
        "4"@
    } else if d == 5 {
        "5"@
    } else if d == 6 {
        "6"@
    } else if d == 7 {
        "7"@
    } else if d == 8 {
        "8"@
    } else {
        "9"@
    }
}

/// A number written in decimal, without leading zeros.
pub open spec fn decimal_of(n: nat) -> Seq<char>
    decreases n,
{
    if n < 10 {
        digit_text(n)
    } else {
        decimal_of(n / 10) + digit_text(n % 10)
    }
}

fn digit(d: u64) -> (r: &'static str)
    ensures
        r@ == digit_text(d as nat),
{
    if d == 0 {
        "0"
    } else if d == 1 {
        "1"
    } else if d == 2 {
        "2"
    } else if d == 3 {
        "3"
    } else if d == 4 {
        "4"
    } else if d == 5 {
        "5"
    } else if d == 6 {
        "6"
    } else if d == 7 {
        "7"
    } else if d == 8 {
        "8"
    } else {
        "9"
    }
}

/// Writes a number in decimal.
pub fn decimal(n: u64) -> (r: String)
    ensures
        r@ == decimal_of(n as nat),
    decreases n,
{
    if n < 10 {
        String::from_str(digit(n))
    } else {
        decimal(n / 10).concat(digit(n % 10))
    }
}

/// Whether one text comes before another in the order of texts: the
/// order of the dictionary, with characters ordered by their code points.
/// A text comes after each of its own beginnings.
pub open spec fn text_before(a: Seq<char>, b: Seq<char>) -> bool
    decreases a.len(),
{
    if b.len() == 0 {
        false
    } else if a.len() == 0 {
        true
    } else if a[0] != b[0] {
        (a[0] as u32) < (b[0] as u32)
    } else {
        text_before(a.drop_first(), b.drop_first())
    }
}

/// No text comes before itself.
pub proof fn lemma_text_before_irreflexive(a: Seq<char>)
    ensures
        !text_before(a, a),
    decreases a.len(),
{
    if a.len() > 0 {
        lemma_text_before_irreflexive(a.drop_first());
    }
}

/// What comes before a text comes before all that the text comes before.
pub proof fn lemma_text_before_transitive(a: Seq<char>, b: Seq<char>, c: Seq<char>)
    requires
        text_before(a, b),
        text_before(b, c),
    ensures
        text_before(a, c),
    decreases a.len(),
{
    if a.len() > 0 && a[0] == b[0] && b[0] == c[0] {
        lemma_text_before_transitive(a.drop_first(), b.drop_first(), c.drop_first());
    }
}

/// Calls `<` on two string slices: true exactly when the first comes
/// before the second in the order of their bytes, which is the order of
/// the dictionary over code points.
#[verifier::external_body]
pub(crate) fn precedes(a: &str, b: &str) -> (r: bool)
    ensures
        r == text_before(a@, b@),
{
    a < b
}

} // verus!
