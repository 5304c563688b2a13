//! Character classification and string utilities shared by the token
//! grammars: first-occurrence search, splitting, and equality over `&str`,
//! plus the few Unicode case operations that `std` performs.

use vstd::prelude::*;
use vstd::string::*;

verus! {

// ---- character classification ----

pub open spec fn spec_is_ascii_digit(c: char) -> bool {
    48 <= c as u32 <= 57
}

pub open spec fn spec_is_ascii_alphabetic(c: char) -> bool {
    (65 <= c as u32 <= 90) || (97 <= c as u32 <= 122)
}

pub open spec fn spec_is_ascii(c: char) -> bool {
    c as u32 <= 127
}

pub fn is_ascii_digit_char(c: char) -> (r: bool)
    ensures
        r == spec_is_ascii_digit(c),
{
    let u = c as u32;
    48 <= u && u <= 57
}

pub fn is_ascii_alphabetic_char(c: char) -> (r: bool)
    ensures
        r == spec_is_ascii_alphabetic(c),
{
    let u = c as u32;
    (65 <= u && u <= 90) || (97 <= u && u <= 122)
}

pub fn is_ascii_char(c: char) -> (r: bool)
    ensures
        r == spec_is_ascii(c),
{
    c as u32 <= 127
}

// ---- first occurrence of a character ----

/// Index of the first occurrence of `c` in `s`, if any.
pub open spec fn spec_find(s: Seq<char>, c: char) -> Option<int>
    decreases s.len(),
{
    if s.len() == 0 {
        None
    } else if s[0] == c {
        Some(0int)
    } else {
        match spec_find(s.skip(1), c) {
            Some(i) => Some(i + 1),
            None => None,
        }
    }
}

pub proof fn lemma_spec_find(s: Seq<char>, c: char)
    ensures
        match spec_find(s, c) {
            Some(i) => 0 <= i < s.len() && s[i] == c && (forall|j: int| 0 <= j < i ==> s[j] != c),
            None => forall|j: int| 0 <= j < s.len() ==> s[j] != c,
        },
    decreases s.len(),
{
    if s.len() != 0 && s[0] != c {
        lemma_spec_find(s.skip(1), c);
        assert(forall|j: int| 1 <= j < s.len() ==> s[j] == s.skip(1)[j - 1]);
    }
}

/// The first index whose character is `c` is exactly what `spec_find` returns.
pub proof fn lemma_spec_find_is(s: Seq<char>, c: char, i: int)
    requires
        0 <= i < s.len(),
        s[i] == c,
        forall|j: int| 0 <= j < i ==> s[j] != c,
    ensures
        spec_find(s, c) == Some(i),
    decreases s.len(),
{
    if i > 0 {
        assert(s.skip(1)[i - 1] == c);
        assert(forall|j: int| 0 <= j < i - 1 ==> s.skip(1)[j] == s[j + 1]);
        lemma_spec_find_is(s.skip(1), c, i - 1);
    }
}

pub proof fn lemma_spec_find_none(s: Seq<char>, c: char)
    requires
        forall|j: int| 0 <= j < s.len() ==> s[j] != c,
    ensures
        spec_find(s, c) is None,
    decreases s.len(),
{
    if s.len() > 0 {
        assert(forall|j: int| 0 <= j < s.len() - 1 ==> s.skip(1)[j] == s[j + 1]);
        lemma_spec_find_none(s.skip(1), c);
    }
}

pub fn find_char(s: &str, c: char) -> (r: Option<usize>)
    ensures
        match r {
            Some(i) => spec_find(s@, c) == Some(i as int),
            None => spec_find(s@, c) is None,
        },
{
    let n = s.unicode_len();
    let mut i: usize = 0;
    while i < n
        invariant
            n == s@.len(),
            0 <= i <= n,
            forall|j: int| 0 <= j < i ==> s@[j] != c,
        decreases n - i,
    {
        if s.get_char(i) == c {
            proof {
                lemma_spec_find_is(s@, c, i as int);
            }
            return Some(i);
        }
        i += 1;
    }
    proof {
        lemma_spec_find_none(s@, c);
    }
    None
}

// ---- splitting ----

/// What `a` and `b` are when `s` is split at its first `c`, if it has one.
pub open spec fn spec_split_once(s: Seq<char>, c: char) -> Option<(Seq<char>, Seq<char>)> {
    match spec_find(s, c) {
        Some(i) => Some((s.take(i), s.skip(i + 1))),
        None => None,
    }
}

pub fn split_once_char<'a>(s: &'a str, c: char) -> (r: Option<(&'a str, &'a str)>)
    ensures
        match r {
            Some((a, b)) => spec_split_once(s@, c) == Some((a@, b@)),
            None => spec_split_once(s@, c) is None,
        },
{
    match find_char(s, c) {
        Some(i) => {
            proof {
                lemma_spec_find(s@, c);
            }
            let n = s.unicode_len();
            let a = s.substring_char(0, i);
            let b = s.substring_char(i + 1, n);
            Some((a, b))
        },
        None => None,
    }
}

/// The pieces of `s` between occurrences of `c`, in order; splitting an
/// empty sequence yields one empty piece.
pub open spec fn spec_split(s: Seq<char>, c: char) -> Seq<Seq<char>>
    decreases s.len(),
    via spec_split_decreases
{
    match spec_find(s, c) {
        None => seq![s],
        Some(i) => seq![s.take(i)] + spec_split(s.skip(i + 1), c),
    }
}

#[via_fn]
proof fn spec_split_decreases(s: Seq<char>, c: char) {
    lemma_spec_find(s, c);
}

pub proof fn lemma_spec_split_len(s: Seq<char>, c: char)
    ensures
        spec_split(s, c).len() >= 1,
    decreases s.len(),
{
    lemma_spec_find(s, c);
    match spec_find(s, c) {
        None => {},
        Some(i) => {
            lemma_spec_split_len(s.skip(i + 1), c);
        },
    }
}

pub fn split_char<'a>(s: &'a str, c: char) -> (r: Vec<&'a str>)
    ensures
        r@.map_values(|t: &str| t@) == spec_split(s@, c),
{
    let mut pieces: Vec<&'a str> = Vec::new();
    let mut rest: &'a str = s;
    loop
        invariant
            spec_split(s@, c) == pieces@.map_values(|t: &str| t@) + spec_split(rest@, c),
        decreases rest@.len() + 1,
    {
        proof {
            lemma_spec_find(rest@, c);
        }
        match find_char(rest, c) {
            Some(i) => {
                let n = rest.unicode_len();
                let piece = rest.substring_char(0, i);
                let ghost old_pieces = pieces@;
                pieces.push(piece);
                proof {
                    assert(pieces@.map_values(|t: &str| t@) =~= old_pieces.map_values(
                        |t: &str| t@,
                    ).push(piece@));
                }
                rest = rest.substring_char(i + 1, n);
            },
            None => {
                let ghost old_pieces = pieces@;
                pieces.push(rest);
                proof {
                    assert(pieces@.map_values(|t: &str| t@) =~= old_pieces.map_values(
                        |t: &str| t@,
                    ).push(rest@));
                    assert(pieces@.map_values(|t: &str| t@) =~= spec_split(s@, c));
                }
                return pieces;
            },
        }
    }
}

// ---- equality ----

pub fn str_eq(a: &str, b: &str) -> (r: bool)
    ensures
        r == (a@ == b@),
{
    let na = a.unicode_len();
    let nb = b.unicode_len();
    if na != nb {
        return false;
    }
    let mut i: usize = 0;
    while i < na
        invariant
            na == a@.len(),
            nb == b@.len(),
            na == nb,
            0 <= i <= na,
            forall|j: int| 0 <= j < i ==> a@[j] == b@[j],
        decreases na - i,
    {
        if a.get_char(i) != b.get_char(i) {
            return false;
        }
        i += 1;
    }
    proof {
        assert(a@ =~= b@);
    }
    true
}

// ---- trusted helpers over std's string operations ----

/// Relies on `String::push`: appends exactly the one character to the end.
#[verifier::external_body]
pub fn push_char(s: &mut String, c: char)
    ensures
        final(s)@ == old(s)@.push(c),
{
    s.push(c);
}

/// The Unicode lowercase mapping that `str::to_lowercase` computes.
pub uninterp spec fn lower_of(s: Seq<char>) -> Seq<char>;

/// Relies on `str::to_lowercase`: the result is a pure function of the
/// characters alone (locale-independent, per Unicode's lowercase property).
#[verifier::external_body]
pub fn to_lowercase(s: &str) -> (r: String)
    ensures
        r@ == lower_of(s@),
{
    s.to_lowercase()
}

/// The Unicode uppercase mapping that `str::to_uppercase` computes.
pub uninterp spec fn upper_of(s: Seq<char>) -> Seq<char>;

/// Relies on `str::to_uppercase`: the result is a pure function of the
/// characters alone (locale-independent, per Unicode's uppercase property).
#[verifier::external_body]
pub fn to_uppercase(s: &str) -> (r: String)
    ensures
        r@ == upper_of(s@),
{
    s.to_uppercase()
}

} // verus!
