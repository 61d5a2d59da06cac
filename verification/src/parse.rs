//! The command parser: prefix gating, lowercase normalization, and
//! tokenization on ASCII whitespace. No side effects.

use vstd::prelude::*;
use vstd::string::StrSliceExecFns;

verus! {

/// The characters tokens are split on: ASCII whitespace.
pub open spec fn is_ascii_ws(c: char) -> bool {
    c == ' ' || c == '\t' || c == '\n' || c == '\u{c}' || c == '\r'
}

/// ASCII lowercasing of one character; characters outside `A`..`Z` are
/// unchanged.
pub open spec fn lower_char(c: char) -> char {
    if 'A' <= c && c <= 'Z' {
        (((c as u8) + 32) as char)
    } else {
        c
    }
}

/// A string lowercased character by character.
pub open spec fn lower_seq(s: Seq<char>) -> Seq<char> {
    s.map_values(|c: char| lower_char(c))
}

/// Close the pending token, if any, at the end of a scan or at whitespace.
pub open spec fn tok_finish(acc: Seq<Seq<char>>, cur: Seq<char>) -> Seq<Seq<char>> {
    if cur.len() > 0 {
        acc.push(cur)
    } else {
        acc
    }
}

/// The completed tokens and the pending partial token after scanning the
/// first `n` characters of `s` from the left: whitespace closes the
/// pending token, any other character extends it.
pub open spec fn tok_scan(s: Seq<char>, n: int) -> (Seq<Seq<char>>, Seq<char>)
    decreases n,
{
    if n <= 0 {
        (Seq::<Seq<char>>::empty(), Seq::<char>::empty())
    } else {
        let prev = tok_scan(s, n - 1);
        if is_ascii_ws(s[n - 1]) {
            (tok_finish(prev.0, prev.1), Seq::<char>::empty())
        } else {
            (prev.0, prev.1.push(s[n - 1]))
        }
    }
}

/// The maximal runs of non-whitespace characters of `s`, in order.
pub open spec fn tokens_of(s: Seq<char>) -> Seq<Seq<char>> {
    let scanned = tok_scan(s, s.len() as int);
    tok_finish(scanned.0, scanned.1)
}

/// The command name of a token list: the second token, or the empty
/// string when the message was too short to hold one.
pub open spec fn cmd_of(tokens: Seq<Seq<char>>) -> Seq<char> {
    if tokens.len() >= 2 {
        tokens[1]
    } else {
        Seq::<char>::empty()
    }
}

/// Whether an (already lowercased) message begins with the command
/// prefix `!q`.
pub open spec fn has_prefix(low: Seq<char>) -> bool {
    low.len() >= 2 && low[0] == '!' && low[1] == 'q'
}

/// What the parser yields on raw message text: nothing unless the text
/// starts with the prefix, compared case-insensitively; otherwise the
/// lowercased whitespace-separated tokens.
pub open spec fn parse_spec(text: Seq<char>) -> Option<Seq<Seq<char>>> {
    if has_prefix(lower_seq(text)) {
        Option::Some(tokens_of(lower_seq(text)))
    } else {
        Option::<Seq<Seq<char>>>::None
    }
}

/// Whether one character is ASCII whitespace.
fn is_ws(c: char) -> (r: bool)
    ensures
        r == is_ascii_ws(c),
{
    c == ' ' || c == '\t' || c == '\n' || c == '\u{c}' || c == '\r'
}

/// Lowercase a string character by character into a vector.
fn to_lower_chars(s: &str) -> (r: Vec<char>)
    ensures
        r@ == lower_seq(s@),
{
    let n = s.unicode_len();
    let mut r: Vec<char> = Vec::new();
    let mut i: usize = 0;
    while i < n
        invariant
            n == s@.len(),
            i <= n,
            r@.len() == i,
            forall|j: int| 0 <= j < i ==> r@[j] == lower_char(s@[j]),
        decreases n - i,
    {
        let c = s.get_char(i);
        if 'A' <= c && c <= 'Z' {
            r.push(((c as u8) + 32) as char);
        } else {
            r.push(c);
        }
        i += 1;
    }
    proof {
        assert(r@ =~= lower_seq(s@));
    }
    r
}

/// Relies on `String`'s standard `FromIterator<char>` implementation
/// (`collect`), which builds the string holding exactly the given
/// characters in order.
#[verifier::external_body]
fn chars_to_string(v: &Vec<char>) -> (r: String)
    ensures
        r@ == v@,
{
    v.iter().collect()
}

/// Split a character vector into its whitespace-separated tokens.
fn tokenize(chars: &Vec<char>) -> (r: Vec<String>)
    ensures
        r.deep_view() == tokens_of(chars@),
{
    let mut acc: Vec<String> = Vec::new();
    let mut cur: Vec<char> = Vec::new();
    let mut i: usize = 0;
    while i < chars.len()
        invariant
            i <= chars@.len(),
            acc.deep_view() == tok_scan(chars@, i as int).0,
            cur@ == tok_scan(chars@, i as int).1,
        decreases chars@.len() - i,
    {
        let c = chars[i];
        if is_ws(c) {
            if cur.len() > 0 {
                let t = chars_to_string(&cur);
                acc.push(t);
                cur = Vec::new();
            }
        } else {
            cur.push(c);
        }
        i += 1;
        proof {
            assert(acc.deep_view() =~~= tok_scan(chars@, i as int).0);
            assert(cur@ =~= tok_scan(chars@, i as int).1);
        }
    }
    if cur.len() > 0 {
        let t = chars_to_string(&cur);
        acc.push(t);
    }
    proof {
        assert(acc.deep_view() =~~= tokens_of(chars@));
    }
    acc
}

/// Parse raw message text: `None` unless it starts with the prefix `!q`
/// (case-insensitively); otherwise the lowercased token list, whose
/// first token begins with the prefix and whose second token, if present,
/// is the command name.
pub fn parse(text: &str) -> (r: Option<Vec<String>>)
    ensures
        match r {
            Option::Some(tokens) => parse_spec(text@) == Option::Some(tokens.deep_view()),
            Option::None => parse_spec(text@) is None,
        },
{
    let low = to_lower_chars(text);
    if low.len() >= 2 && low[0] == '!' && low[1] == 'q' {
        Option::Some(tokenize(&low))
    } else {
        Option::None
    }
}

} // verus!
