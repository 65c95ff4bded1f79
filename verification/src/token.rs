//! The session token that the landing page embeds in a script.
//!
//! The token follows the marker `vqd=`: after any quote characters comes an
//! optional hyphen and a run of decimal digits. The hyphen and the digits are
//! the token; the leftmost place where the page shows one counts.

use vstd::prelude::*;
use vstd::string::*;
use crate::error::SearchError;
use crate::text::{chars_of, matches_at, occurs_at};

verus! {

/// The marker that announces the token.
pub open spec fn marker() -> Seq<char> {
    seq!['v', 'q', 'd', '=']
}

/// A decimal digit.
pub open spec fn is_digit(c: char) -> bool {
    '0' <= c && c <= '9'
}

/// A single or a double quote.
pub open spec fn is_quote(c: char) -> bool {
    c == '\'' || c == '"'
}

/// The first offset from `from` on that holds no quote.
pub open spec fn after_quotes(s: Seq<char>, from: int) -> int
    decreases s.len() - from,
{
    if 0 <= from < s.len() && is_quote(s[from]) {
        after_quotes(s, from + 1)
    } else {
        from
    }
}

/// The offset behind a hyphen at `from`, or `from` where there is none.
pub open spec fn after_sign(s: Seq<char>, from: int) -> int {
    if 0 <= from < s.len() && s[from] == '-' {
        from + 1
    } else {
        from
    }
}

/// The first offset from `from` on that holds no digit.
pub open spec fn after_digits(s: Seq<char>, from: int) -> int
    decreases s.len() - from,
{
    if 0 <= from < s.len() && is_digit(s[from]) {
        after_digits(s, from + 1)
    } else {
        from
    }
}

/// The token that the marker at offset `at` announces, if a marker stands
/// there and a token follows it.
pub open spec fn token_at(s: Seq<char>, at: int) -> Option<Seq<char>> {
    let start = after_quotes(s, at + 4);
    let digits = after_sign(s, start);
    let end = after_digits(s, digits);
    if occurs_at(s, marker(), at) && digits < end {
        Some(s.subrange(start, end))
    } else {
        None
    }
}

/// Whether `at` is the leftmost offset of `s` that announces a token.
pub open spec fn announces_first(s: Seq<char>, at: int) -> bool {
    &&& token_at(s, at) is Some
    &&& forall|before: int| before < at ==> token_at(s, before) is None
}

/// The token of a page body: the one that its leftmost announcing marker announces.
pub open spec fn token_of(s: Seq<char>) -> Option<Seq<char>> {
    if exists|at: int| announces_first(s, at) {
        token_at(s, choose|at: int| announces_first(s, at))
    } else {
        None
    }
}

/// At most one offset announces the first token.
pub proof fn lemma_first_is_unique(s: Seq<char>, at: int, other: int)
    requires
        announces_first(s, at),
        announces_first(s, other),
    ensures
        at == other,
{
    if at < other {
        assert(token_at(s, at) is None);
    } else if other < at {
        assert(token_at(s, other) is None);
    }
}

fn skip_quotes(chars: &Vec<char>, from: usize) -> (to: usize)
    requires
        from <= chars.len(),
    ensures
        to == after_quotes(chars@, from as int),
        from <= to <= chars.len(),
{
    let mut to = from;
    while to < chars.len() && (chars[to] == '\'' || chars[to] == '"')
        invariant
            from <= to <= chars.len(),
            after_quotes(chars@, from as int) == after_quotes(chars@, to as int),
        decreases chars.len() - to,
    {
        to += 1;
    }
    to
}

fn skip_digits(chars: &Vec<char>, from: usize) -> (to: usize)
    requires
        from <= chars.len(),
    ensures
        to == after_digits(chars@, from as int),
        from <= to <= chars.len(),
{
    let mut to = from;
    while to < chars.len() && '0' <= chars[to] && chars[to] <= '9'
        invariant
            from <= to <= chars.len(),
            after_digits(chars@, from as int) == after_digits(chars@, to as int),
        decreases chars.len() - to,
    {
        to += 1;
    }
    to
}

/// Finds the span of the token that the marker at `at` announces.
fn token_span(chars: &Vec<char>, marker: &Vec<char>, at: usize) -> (span: Option<(usize, usize)>)
    requires
        marker@ == self::marker(),
        at < chars.len(),
    ensures
        match span {
            Some((start, end)) => start <= end <= chars.len() && token_at(chars@, at as int) == Some(
                chars@.subrange(start as int, end as int),
            ),
            None => token_at(chars@, at as int) is None,
        },
{
    if !matches_at(chars, marker, at) {
        return None;
    }
    let start = skip_quotes(chars, at + 4);
    let digits = if start < chars.len() && chars[start] == '-' {
        start + 1
    } else {
        start
    };
    let end = skip_digits(chars, digits);
    if digits < end {
        Some((start, end))
    } else {
        None
    }
}

/// Extracts the session token from the body of the landing page: the hyphen,
/// if any, and the digits that follow the leftmost marker which announces a
/// token. A body that announces none fails with `SearchError::TokenMissing`.
pub fn extract_token(body: &str) -> (found: Result<String, SearchError>)
    ensures
        match found {
            Ok(token) => token_of(body@) == Some(token@) && exists|at: int|
                announces_first(body@, at) && #[trigger] token_at(body@, at) == Some(token@),
            Err(error) => error is TokenMissing && token_of(body@) is None && forall|at: int|
                token_at(body@, at) is None,
        },
{
    let chars = chars_of(body);
    let mut marker: Vec<char> = Vec::new();
    marker.push('v');
    marker.push('q');
    marker.push('d');
    marker.push('=');
    assert(marker@ =~= self::marker());
    let mut at: usize = 0;
    while at < chars.len()
        invariant
            at <= chars.len(),
            chars@ == body@,
            marker@ == self::marker(),
            forall|before: int| before < at ==> token_at(body@, before) is None,
        decreases chars.len() - at,
    {
        match token_span(&chars, &marker, at) {
            Some((start, end)) => {
                let token = String::from_str(body.substring_char(start, end));
                proof {
                    assert(announces_first(body@, at as int));
                    lemma_first_is_unique(body@, at as int, choose|at: int| announces_first(body@, at));
                }
                return Ok(token);
            },
            None => {},
        }
        at += 1;
    }
    Err(SearchError::TokenMissing)
}

} // verus!
