//! The four fixed case-folding strategies used for IRC name equality.
//! Two names are IRC-equal exactly when their normalized forms are equal;
//! callers must never compare raw strings.

use vstd::prelude::*;
use vstd::string::*;
use crate::text::{lower_of, push_char, to_lowercase};

verus! {

#[allow(non_camel_case_types)]
#[derive(Clone, Copy, Debug, PartialEq, Eq, Structural)]
pub enum CaseMap {
    ASCII,
    RFC1459,
    RFC1459_STRICT,
    RFC7613,
}

impl Default for CaseMap {
    /// The protocol default casemapping.
    fn default() -> (r: Self)
        ensures
            r == CaseMap::RFC7613,
    {
        CaseMap::RFC7613
    }
}

pub open spec fn spec_ascii_lower_char(c: char) -> char {
    match c {
        'A' => 'a',
        'B' => 'b',
        'C' => 'c',
        'D' => 'd',
        'E' => 'e',
        'F' => 'f',
        'G' => 'g',
        'H' => 'h',
        'I' => 'i',
        'J' => 'j',
        'K' => 'k',
        'L' => 'l',
        'M' => 'm',
        'N' => 'n',
        'O' => 'o',
        'P' => 'p',
        'Q' => 'q',
        'R' => 'r',
        'S' => 's',
        'T' => 't',
        'U' => 'u',
        'V' => 'v',
        'W' => 'w',
        'X' => 'x',
        'Y' => 'y',
        'Z' => 'z',
        _ => c,
    }
}

pub open spec fn spec_ascii_upper_char(c: char) -> char {
    match c {
        'a' => 'A',
        'b' => 'B',
        'c' => 'C',
        'd' => 'D',
        'e' => 'E',
        'f' => 'F',
        'g' => 'G',
        'h' => 'H',
        'i' => 'I',
        'j' => 'J',
        'k' => 'K',
        'l' => 'L',
        'm' => 'M',
        'n' => 'N',
        'o' => 'O',
        'p' => 'P',
        'q' => 'Q',
        'r' => 'R',
        's' => 'S',
        't' => 'T',
        'u' => 'U',
        'v' => 'V',
        'w' => 'W',
        'x' => 'X',
        'y' => 'Y',
        'z' => 'Z',
        _ => c,
    }
}

pub fn ascii_upper_char(c: char) -> (r: char)
    ensures
        r == spec_ascii_upper_char(c),
{
    match c {
        'a' => 'A',
        'b' => 'B',
        'c' => 'C',
        'd' => 'D',
        'e' => 'E',
        'f' => 'F',
        'g' => 'G',
        'h' => 'H',
        'i' => 'I',
        'j' => 'J',
        'k' => 'K',
        'l' => 'L',
        'm' => 'M',
        'n' => 'N',
        'o' => 'O',
        'p' => 'P',
        'q' => 'Q',
        'r' => 'R',
        's' => 'S',
        't' => 'T',
        'u' => 'U',
        'v' => 'V',
        'w' => 'W',
        'x' => 'X',
        'y' => 'Y',
        'z' => 'Z',
        _ => c,
    }
}

/// The ASCII uppercase of a sequence, character by character.
pub open spec fn spec_ascii_upper(s: Seq<char>) -> Seq<char> {
    s.map_values(|c: char| spec_ascii_upper_char(c))
}

pub fn ascii_upper(s: &str) -> (r: String)
    ensures
        r@ == spec_ascii_upper(s@),
{
    let n = s.unicode_len();
    let mut out = String::new();
    let mut i: usize = 0;
    while i < n
        invariant
            n == s@.len(),
            0 <= i <= n,
            out@ == spec_ascii_upper(s@.take(i as int)),
        decreases n - i,
    {
        let c = s.get_char(i);
        push_char(&mut out, ascii_upper_char(c));
        proof {
            assert(spec_ascii_upper(s@.take(i + 1)) =~= spec_ascii_upper(s@.take(i as int)).push(
                spec_ascii_upper_char(c),
            ));
        }
        i += 1;
    }
    proof {
        assert(s@.take(n as int) =~= s@);
    }
    out
}

pub open spec fn spec_rfc1459_char(c: char) -> char {
    match c {
        '[' => '{',
        ']' => '}',
        '\\' => '|',
        '~' => '^',
        _ => spec_ascii_lower_char(c),
    }
}

pub open spec fn spec_rfc1459_strict_char(c: char) -> char {
    if c == '~' {
        '~'
    } else {
        spec_rfc1459_char(c)
    }
}

/// The per-character mapping of each strategy; `RFC7613` is not
/// per-character (it is the full Unicode casefold) and is handled apart.
pub open spec fn spec_map_char(cm: CaseMap, c: char) -> char {
    match cm {
        CaseMap::ASCII => spec_ascii_lower_char(c),
        CaseMap::RFC1459 => spec_rfc1459_char(c),
        CaseMap::RFC1459_STRICT => spec_rfc1459_strict_char(c),
        CaseMap::RFC7613 => c,
    }
}

/// The normalized form of a name under the given strategy.
pub open spec fn spec_normalize(cm: CaseMap, s: Seq<char>) -> Seq<char> {
    if cm is RFC7613 {
        lower_of(s)
    } else {
        s.map_values(|c: char| spec_map_char(cm, c))
    }
}

fn map_char(cm: CaseMap, c: char) -> (r: char)
    ensures
        r == spec_map_char(cm, c),
{
    match cm {
        CaseMap::ASCII => ascii_lower_char(c),
        CaseMap::RFC1459 => rfc1459_char(c),
        CaseMap::RFC1459_STRICT => rfc1459_strict_char(c),
        CaseMap::RFC7613 => c,
    }
}

fn ascii_lower_char(c: char) -> (r: char)
    ensures
        r == spec_ascii_lower_char(c),
{
    match c {
        'A' => 'a',
        'B' => 'b',
        'C' => 'c',
        'D' => 'd',
        'E' => 'e',
        'F' => 'f',
        'G' => 'g',
        'H' => 'h',
        'I' => 'i',
        'J' => 'j',
        'K' => 'k',
        'L' => 'l',
        'M' => 'm',
        'N' => 'n',
        'O' => 'o',
        'P' => 'p',
        'Q' => 'q',
        'R' => 'r',
        'S' => 's',
        'T' => 't',
        'U' => 'u',
        'V' => 'v',
        'W' => 'w',
        'X' => 'x',
        'Y' => 'y',
        'Z' => 'z',
        _ => c,
    }
}

fn rfc1459_char(c: char) -> (r: char)
    ensures
        r == spec_rfc1459_char(c),
{
    match c {
        '[' => '{',
        ']' => '}',
        '\\' => '|',
        '~' => '^',
        _ => ascii_lower_char(c),
    }
}

fn rfc1459_strict_char(c: char) -> (r: char)
    ensures
        r == spec_rfc1459_strict_char(c),
{
    if c == '~' {
        '~'
    } else {
        rfc1459_char(c)
    }
}

impl CaseMap {
    /// Normalizes a nick or channel name for case-insensitive comparison
    /// under this strategy.
    pub fn normalize(&self, from_str: &str) -> (r: String)
        ensures
            r@ == spec_normalize(*self, from_str@),
    {
        match self {
            CaseMap::RFC7613 => to_lowercase(from_str),
            _ => {
                let cm = *self;
                let n = from_str.unicode_len();
                let mut out = String::new();
                let mut i: usize = 0;
                while i < n
                    invariant
                        cm == *self,
                        !(cm is RFC7613),
                        n == from_str@.len(),
                        0 <= i <= n,
                        out@ == from_str@.take(i as int).map_values(
                            |c: char| spec_map_char(cm, c),
                        ),
                    decreases n - i,
                {
                    let c = from_str.get_char(i);
                    push_char(&mut out, map_char(cm, c));
                    proof {
                        assert(from_str@.take(i + 1).map_values(|ch: char| spec_map_char(cm, ch))
                            =~= from_str@.take(i as int).map_values(
                            |ch: char| spec_map_char(cm, ch),
                        ).push(spec_map_char(cm, c)));
                    }
                    i += 1;
                }
                proof {
                    assert(from_str@.take(n as int) =~= from_str@);
                }
                out
            },
        }
    }
}

/// For the per-character strategies, every mapped character is a fixed
/// point of the map: normalizing a second time changes nothing.
pub proof fn lemma_normalize_idempotent(cm: CaseMap, s: Seq<char>)
    requires
        !(cm is RFC7613),
    ensures
        spec_normalize(cm, spec_normalize(cm, s)) == spec_normalize(cm, s),
{
    let f = |c: char| spec_map_char(cm, c);
    let t = s.map_values(f);
    assert forall|i: int| 0 <= i < t.len() implies #[trigger] t.map_values(f)[i] == t[i] by {
        assert(t[i] == f(s[i]));
        assert(f(f(s[i])) == f(s[i]));
    }
    assert(t.map_values(f) =~= t);
}

} // verus!
