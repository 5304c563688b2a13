//! The token parser: one raw `KEY[=VALUE]` or `-KEY` string becomes an
//! `Operation` (add a typed payload, or remove by name). Each recognized key
//! has its own micro-grammar; a key outside the known set, or a value its
//! grammar rejects, is a token-scoped error and nothing is stored.

use vstd::prelude::*;
use vstd::string::*;
use crate::casemap::{CaseMap, spec_ascii_upper, ascii_upper};
use crate::error::ErrorReason;
use crate::numbers::{spec_parse_u16, parse_u16};
use crate::param::{
    ChannelLimit, ClientOnlyTags, CommandTargetLimit, Kind, MessageReferenceType, ModeKind,
    ModesLimit, Parameter, PrefixMap, SpecClientOnlyTags, SpecCommandTargetLimit, SpecModeKind,
    SpecModesLimit, SpecParameter, spec_param_kind,
};
use crate::text::{
    is_ascii_alphabetic_char, is_ascii_char, lemma_spec_split_len, lower_of, spec_is_ascii,
    spec_is_ascii_alphabetic, spec_split, spec_split_once, split_char, split_once_char, str_eq,
    to_lowercase, to_uppercase, upper_of,
};

verus! {

/// The result of parsing one token: add a validated payload, or remove a
/// capability by name.
#[derive(Clone, Debug, PartialEq)]
pub enum Operation {
    Add(Parameter),
    Remove(String),
}

pub enum SpecOperation {
    Add(SpecParameter),
    Remove(Seq<char>),
}

impl View for Operation {
    type V = SpecOperation;

    open spec fn view(&self) -> SpecOperation {
        match self {
            Operation::Add(p) => SpecOperation::Add(p@),
            Operation::Remove(s) => SpecOperation::Remove(s@),
        }
    }
}

// ---- shared predicates ----

pub open spec fn spec_all_alphabetic(s: Seq<char>) -> bool {
    forall|i: int| 0 <= i < s.len() ==> spec_is_ascii_alphabetic(s[i])
}

pub open spec fn spec_all_ascii(s: Seq<char>) -> bool {
    forall|i: int| 0 <= i < s.len() ==> spec_is_ascii(s[i])
}

fn all_alphabetic(s: &str) -> (r: bool)
    ensures
        r == spec_all_alphabetic(s@),
{
    let n = s.unicode_len();
    let mut i: usize = 0;
    while i < n
        invariant
            n == s@.len(),
            0 <= i <= n,
            forall|j: int| 0 <= j < i ==> spec_is_ascii_alphabetic(s@[j]),
        decreases n - i,
    {
        if !is_ascii_alphabetic_char(s.get_char(i)) {
            return false;
        }
        i += 1;
    }
    true
}

fn all_ascii(s: &str) -> (r: bool)
    ensures
        r == spec_all_ascii(s@),
{
    let n = s.unicode_len();
    let mut i: usize = 0;
    while i < n
        invariant
            n == s@.len(),
            0 <= i <= n,
            forall|j: int| 0 <= j < i ==> spec_is_ascii(s@[j]),
        decreases n - i,
    {
        if !is_ascii_char(s.get_char(i)) {
            return false;
        }
        i += 1;
    }
    true
}

/// Collects the characters of `s` into a vector.
fn chars_of(s: &str) -> (r: Vec<char>)
    ensures
        r@ == s@,
{
    let n = s.unicode_len();
    let mut out: Vec<char> = Vec::new();
    let mut i: usize = 0;
    while i < n
        invariant
            n == s@.len(),
            0 <= i <= n,
            out@ == s@.take(i as int),
        decreases n - i,
    {
        out.push(s.get_char(i));
        proof {
            assert(s@.take(i + 1) =~= s@.take(i as int).push(s@[i as int]));
        }
        i += 1;
    }
    proof {
        assert(s@.take(n as int) =~= s@);
    }
    out
}

// ---- the primitive parsers shared by the per-key grammars ----

pub open spec fn spec_required_positive_integer(value: Seq<char>) -> Result<u16, ErrorReason> {
    match spec_parse_u16(value) {
        Some(v) => Ok(v),
        None => Err(ErrorReason::PositiveIntegerRequired),
    }
}

/// A value that must be a positive integer.
pub fn parse_required_positive_integer(value: &str) -> (r: Result<u16, ErrorReason>)
    ensures
        r == spec_required_positive_integer(value@),
{
    match parse_u16(value) {
        Some(v) => Ok(v),
        None => Err(ErrorReason::PositiveIntegerRequired),
    }
}

pub open spec fn spec_optional_positive_integer(value: Seq<char>) -> Result<
    Option<u16>,
    ErrorReason,
> {
    if value.len() == 0 {
        Ok(None)
    } else {
        match spec_parse_u16(value) {
            Some(v) => Ok(Some(v)),
            None => Err(ErrorReason::OptionalPositiveIntegerRequired),
        }
    }
}

/// A value that must be a positive integer if present at all.
pub fn parse_optional_positive_integer(value: &str) -> (r: Result<Option<u16>, ErrorReason>)
    ensures
        r == spec_optional_positive_integer(value@),
{
    if value.unicode_len() == 0 {
        Ok(None)
    } else {
        match parse_u16(value) {
            Some(v) => Ok(Some(v)),
            None => Err(ErrorReason::OptionalPositiveIntegerRequired),
        }
    }
}

pub open spec fn spec_required_letter(value: Seq<char>, default_value: Option<char>) -> Result<
    char,
    ErrorReason,
> {
    if value.len() > 0 {
        if spec_is_ascii_alphabetic(value[0]) {
            Ok(value[0])
        } else {
            Err(ErrorReason::LetterRequired)
        }
    } else {
        match default_value {
            Some(d) => Ok(d),
            None => Err(ErrorReason::LetterRequired),
        }
    }
}

/// A value that must be a single letter; an absent value falls back to the
/// key's default letter, if it has one.
pub fn parse_required_letter(value: &str, default_value: Option<char>) -> (r: Result<
    char,
    ErrorReason,
>)
    ensures
        r == spec_required_letter(value@, default_value),
{
    if value.unicode_len() > 0 {
        let c = value.get_char(0);
        if is_ascii_alphabetic_char(c) {
            Ok(c)
        } else {
            Err(ErrorReason::LetterRequired)
        }
    } else {
        match default_value {
            Some(d) => Ok(d),
            None => Err(ErrorReason::LetterRequired),
        }
    }
}

pub open spec fn spec_required_letters(value: Seq<char>) -> Result<Seq<char>, ErrorReason> {
    if value.len() == 0 {
        Err(ErrorReason::ValueRequired)
    } else if spec_all_alphabetic(value) {
        Ok(value)
    } else {
        Err(ErrorReason::LettersRequired)
    }
}

/// A value that must be one or more letters.
pub fn parse_required_letters(value: &str) -> (r: Result<String, ErrorReason>)
    ensures
        match (r, spec_required_letters(value@)) {
            (Ok(s), Ok(ss)) => s@ == ss,
            (Err(e), Err(se)) => e == se,
            _ => false,
        },
{
    if value.unicode_len() == 0 {
        Err(ErrorReason::ValueRequired)
    } else if all_alphabetic(value) {
        Ok(String::from_str(value))
    } else {
        Err(ErrorReason::LettersRequired)
    }
}

pub open spec fn spec_optional_letters(value: Seq<char>) -> Result<Option<Seq<char>>, ErrorReason> {
    if value.len() == 0 {
        Ok(None)
    } else if spec_all_alphabetic(value) {
        Ok(Some(value))
    } else {
        Err(ErrorReason::LettersRequiredIfSpecified)
    }
}

/// A value that must be letters if present at all.
pub fn parse_optional_letters(value: &str) -> (r: Result<Option<String>, ErrorReason>)
    ensures
        match (r, spec_optional_letters(value@)) {
            (Ok(Some(s)), Ok(Some(ss))) => s@ == ss,
            (Ok(None), Ok(None)) => true,
            (Err(e), Err(se)) => e == se,
            _ => false,
        },
{
    if value.unicode_len() == 0 {
        Ok(None)
    } else if all_alphabetic(value) {
        Ok(Some(String::from_str(value)))
    } else {
        Err(ErrorReason::LettersRequiredIfSpecified)
    }
}


// ---- per-key grammars ----

/// Relates an executable parse result to its model.
pub open spec fn param_result_matches(
    r: Result<Parameter, ErrorReason>,
    s: Result<SpecParameter, ErrorReason>,
) -> bool {
    match (r, s) {
        (Ok(p), Ok(sp)) => p@ == sp,
        (Err(e), Err(se)) => e == se,
        _ => false,
    }
}

// ACCOUNTEXTBAN: a comma list of account-based extended ban masks.
pub open spec fn spec_parse_accountextban(value: Seq<char>) -> Result<SpecParameter, ErrorReason> {
    let masks = spec_split(value, ',');
    if masks.len() > 0 {
        Ok(SpecParameter::ACCOUNTEXTBAN(masks))
    } else {
        Err(ErrorReason::NoValidAccountExtendedBanMasks)
    }
}

fn parse_accountextban(value: &str) -> (r: Result<Parameter, ErrorReason>)
    ensures
        param_result_matches(r, spec_parse_accountextban(value@)),
{
    let pieces = split_char(value, ',');
    let ghost pv = pieces@.map_values(|t: &str| t@);
    let mut masks: Vec<String> = Vec::new();
    let mut k: usize = 0;
    while k < pieces.len()
        invariant
            pv == pieces@.map_values(|t: &str| t@),
            pv == spec_split(value@, ','),
            0 <= k <= pieces.len(),
            masks@.map_values(|s: String| s@) == pv.take(k as int),
        decreases pieces.len() - k,
    {
        let ghost before = masks@;
        masks.push(String::from_str(pieces[k]));
        proof {
            assert(masks@.map_values(|s: String| s@) =~= before.map_values(|s: String| s@).push(
                pv[k as int],
            ));
            assert(pv.take(k + 1) =~= pv.take(k as int).push(pv[k as int]));
        }
        k += 1;
    }
    proof {
        assert(pv.take(pieces@.len() as int) =~= pv);
    }
    if masks.len() > 0 {
        Ok(Parameter::ACCOUNTEXTBAN(masks))
    } else {
        Err(ErrorReason::NoValidAccountExtendedBanMasks)
    }
}

// CASEMAPPING: one of the four strategy names, compared case-insensitively.
pub open spec fn spec_parse_casemapping(value: Seq<char>) -> Result<SpecParameter, ErrorReason> {
    let lower = lower_of(value);
    if lower == "ascii"@ {
        Ok(SpecParameter::CASEMAPPING(CaseMap::ASCII))
    } else if lower == "rfc1459"@ {
        Ok(SpecParameter::CASEMAPPING(CaseMap::RFC1459))
    } else if lower == "rfc1459-strict"@ {
        Ok(SpecParameter::CASEMAPPING(CaseMap::RFC1459_STRICT))
    } else if lower == "rfc7613"@ {
        Ok(SpecParameter::CASEMAPPING(CaseMap::RFC7613))
    } else {
        Err(ErrorReason::UnknownCaseMapping)
    }
}

fn parse_casemapping(value: &str) -> (r: Result<Parameter, ErrorReason>)
    ensures
        param_result_matches(r, spec_parse_casemapping(value@)),
{
    let lower = to_lowercase(value);
    let ls = lower.as_str();
    if str_eq(ls, "ascii") {
        Ok(Parameter::CASEMAPPING(CaseMap::ASCII))
    } else if str_eq(ls, "rfc1459") {
        Ok(Parameter::CASEMAPPING(CaseMap::RFC1459))
    } else if str_eq(ls, "rfc1459-strict") {
        Ok(Parameter::CASEMAPPING(CaseMap::RFC1459_STRICT))
    } else if str_eq(ls, "rfc7613") {
        Ok(Parameter::CASEMAPPING(CaseMap::RFC7613))
    } else {
        Err(ErrorReason::UnknownCaseMapping)
    }
}

// CHANLIMIT: a comma list of `prefixes:limit?`; every prefix character of an
// entry gets its own record; an empty limit means unlimited; entries whose
// limit does not parse are dropped.
pub open spec fn spec_mk_channel_limit(c: char, limit: Option<u16>) -> ChannelLimit {
    ChannelLimit { prefix: c, limit }
}

/// One record per prefix character, all with the same limit.
pub open spec fn spec_channel_limits_of(prefix: Seq<char>, limit: Option<u16>) -> Seq<ChannelLimit> {
    Seq::new(prefix.len(), |i: int| spec_mk_channel_limit(prefix[i], limit))
}

pub open spec fn spec_chanlimit_entry(piece: Seq<char>) -> Seq<ChannelLimit> {
    match spec_split_once(piece, ':') {
        Some((prefix, limit)) => if limit.len() == 0 {
            spec_channel_limits_of(prefix, None)
        } else {
            match spec_parse_u16(limit) {
                Some(l) => spec_channel_limits_of(prefix, Some(l)),
                None => Seq::empty(),
            }
        },
        None => Seq::empty(),
    }
}

pub open spec fn spec_chanlimit_list(pieces: Seq<Seq<char>>) -> Seq<ChannelLimit>
    decreases pieces.len(),
{
    if pieces.len() == 0 {
        Seq::empty()
    } else {
        spec_chanlimit_list(pieces.drop_last()) + spec_chanlimit_entry(pieces.last())
    }
}

pub open spec fn spec_parse_chanlimit(value: Seq<char>) -> Result<SpecParameter, ErrorReason> {
    let entries = spec_chanlimit_list(spec_split(value, ','));
    if entries.len() > 0 {
        Ok(SpecParameter::CHANLIMIT(entries))
    } else {
        Err(ErrorReason::NoValidChannelLimits)
    }
}

fn push_channel_limits(entries: &mut Vec<ChannelLimit>, prefix: &str, limit: Option<u16>)
    ensures
        final(entries)@ == old(entries)@ + spec_channel_limits_of(prefix@, limit),
{
    let n = prefix.unicode_len();
    let mut j: usize = 0;
    proof {
        assert(entries@ =~= old(entries)@ + spec_channel_limits_of(prefix@.take(0), limit));
    }
    while j < n
        invariant
            n == prefix@.len(),
            0 <= j <= n,
            entries@ == old(entries)@ + spec_channel_limits_of(prefix@.take(j as int), limit),
        decreases n - j,
    {
        let c = prefix.get_char(j);
        entries.push(ChannelLimit { prefix: c, limit });
        proof {
            assert(spec_channel_limits_of(prefix@.take(j + 1), limit)
                =~= spec_channel_limits_of(prefix@.take(j as int), limit).push(
                (ChannelLimit { prefix: c, limit }),
            ));
            assert(entries@ =~= old(entries)@ + spec_channel_limits_of(prefix@.take(j + 1), limit));
        }
        j += 1;
    }
    proof {
        assert(prefix@.take(n as int) =~= prefix@);
    }
}

fn parse_chanlimit(value: &str) -> (r: Result<Parameter, ErrorReason>)
    ensures
        param_result_matches(r, spec_parse_chanlimit(value@)),
{
    let pieces = split_char(value, ',');
    let ghost pv = pieces@.map_values(|t: &str| t@);
    let mut entries: Vec<ChannelLimit> = Vec::new();
    let mut k: usize = 0;
    while k < pieces.len()
        invariant
            pv == pieces@.map_values(|t: &str| t@),
            pv == spec_split(value@, ','),
            0 <= k <= pieces.len(),
            entries@ == spec_chanlimit_list(pv.take(k as int)),
        decreases pieces.len() - k,
    {
        let piece = pieces[k];
        match split_once_char(piece, ':') {
            Some((prefix, limit)) => {
                if limit.unicode_len() == 0 {
                    push_channel_limits(&mut entries, prefix, None);
                } else {
                    match parse_u16(limit) {
                        Some(l) => push_channel_limits(&mut entries, prefix, Some(l)),
                        None => {},
                    }
                }
            },
            None => {},
        }
        proof {
            assert(pv.take(k + 1).drop_last() =~= pv.take(k as int));
            assert(pv.take(k + 1).last() == pv[k as int]);
            assert(entries@ =~= spec_chanlimit_list(pv.take(k + 1)));
        }
        k += 1;
    }
    proof {
        assert(pv.take(pieces@.len() as int) =~= pv);
    }
    if entries.len() > 0 {
        Ok(Parameter::CHANLIMIT(entries))
    } else {
        Err(ErrorReason::NoValidChannelLimits)
    }
}

// CHANMODES: up to 26 comma groups aligned to the letters beginning at `A`;
// a group with a non-alphabetic character, or an empty group, is dropped.
pub open spec fn spec_class_letter(i: int) -> char {
    ((65 + i) as u8) as char
}

pub open spec fn spec_chanmodes_list(pieces: Seq<Seq<char>>, n: int) -> Seq<SpecModeKind>
    decreases n,
{
    if n <= 0 {
        Seq::empty()
    } else {
        let prev = spec_chanmodes_list(pieces, n - 1);
        let piece = pieces[n - 1];
        if piece.len() > 0 && spec_all_alphabetic(piece) {
            prev + seq![(SpecModeKind { kind: spec_class_letter(n - 1), modes: piece })]
        } else {
            prev
        }
    }
}

pub open spec fn spec_parse_chanmodes(value: Seq<char>) -> Result<SpecParameter, ErrorReason> {
    let pieces = spec_split(value, ',');
    let n = if pieces.len() < 26 {
        pieces.len() as int
    } else {
        26
    };
    let groups = spec_chanmodes_list(pieces, n);
    if groups.len() > 0 {
        Ok(SpecParameter::CHANMODES(groups))
    } else {
        Err(ErrorReason::NoValidChannelModes)
    }
}

fn parse_chanmodes(value: &str) -> (r: Result<Parameter, ErrorReason>)
    ensures
        param_result_matches(r, spec_parse_chanmodes(value@)),
{
    let pieces = split_char(value, ',');
    let ghost pv = pieces@.map_values(|t: &str| t@);
    let n = if pieces.len() < 26 {
        pieces.len()
    } else {
        26
    };
    let mut groups: Vec<ModeKind> = Vec::new();
    let mut k: usize = 0;
    while k < n
        invariant
            pv == pieces@.map_values(|t: &str| t@),
            pv == spec_split(value@, ','),
            n == (if pv.len() < 26 { pv.len() as int } else { 26int }),
            n <= pieces.len(),
            0 <= k <= n,
            groups@.map_values(|m: ModeKind| m@) == spec_chanmodes_list(pv, k as int),
        decreases n - k,
    {
        let piece = pieces[k];
        if piece.unicode_len() > 0 && all_alphabetic(piece) {
            let letter = (65u8 + (k as u8)) as char;
            let ghost before = groups@;
            groups.push(ModeKind { kind: letter, modes: String::from_str(piece) });
            proof {
                assert(letter == spec_class_letter(k as int));
                assert(groups@.map_values(|m: ModeKind| m@) =~= before.map_values(
                    |m: ModeKind| m@,
                ).push((SpecModeKind { kind: letter, modes: pv[k as int] })));
                assert(groups@.map_values(|m: ModeKind| m@) =~= spec_chanmodes_list(
                    pv,
                    k + 1,
                ));
            }
        }
        k += 1;
    }
    if groups.len() > 0 {
        Ok(Parameter::CHANMODES(groups))
    } else {
        Err(ErrorReason::NoValidChannelModes)
    }
}

// CHANTYPES: the channel-prefix characters; an empty value means none.
pub open spec fn spec_parse_chantypes(value: Seq<char>) -> Result<SpecParameter, ErrorReason> {
    if value.len() == 0 {
        Ok(SpecParameter::CHANTYPES(None))
    } else {
        Ok(SpecParameter::CHANTYPES(Some(value)))
    }
}

fn parse_chantypes(value: &str) -> (r: Result<Parameter, ErrorReason>)
    ensures
        param_result_matches(r, spec_parse_chantypes(value@)),
{
    if value.unicode_len() == 0 {
        Ok(Parameter::CHANTYPES(None))
    } else {
        Ok(Parameter::CHANTYPES(Some(chars_of(value))))
    }
}

// CLIENTTAGDENY: a comma list; `*` denies all, `-name` allows, `name` denies.
pub open spec fn spec_ctd_entry(piece: Seq<char>) -> SpecClientOnlyTags {
    if piece.len() > 0 && piece[0] == '*' {
        SpecClientOnlyTags::DenyAll
    } else if piece.len() > 0 && piece[0] == '-' {
        SpecClientOnlyTags::Allowed(piece.skip(1))
    } else {
        SpecClientOnlyTags::Denied(piece)
    }
}

pub open spec fn spec_parse_clienttagdeny(value: Seq<char>) -> Result<SpecParameter, ErrorReason> {
    let denials = spec_split(value, ',').map_values(|p: Seq<char>| spec_ctd_entry(p));
    if denials.len() > 0 {
        Ok(SpecParameter::CLIENTTAGDENY(denials))
    } else {
        Err(ErrorReason::NoValidClientTagDenials)
    }
}

fn parse_clienttagdeny(value: &str) -> (r: Result<Parameter, ErrorReason>)
    ensures
        param_result_matches(r, spec_parse_clienttagdeny(value@)),
{
    let pieces = split_char(value, ',');
    let ghost pv = pieces@.map_values(|t: &str| t@);
    let mut denials: Vec<ClientOnlyTags> = Vec::new();
    let mut k: usize = 0;
    while k < pieces.len()
        invariant
            pv == pieces@.map_values(|t: &str| t@),
            pv == spec_split(value@, ','),
            0 <= k <= pieces.len(),
            denials@.map_values(|t: ClientOnlyTags| t@) == pv.take(k as int).map_values(
                |p: Seq<char>| spec_ctd_entry(p),
            ),
        decreases pieces.len() - k,
    {
        let piece = pieces[k];
        let n = piece.unicode_len();
        let ghost before = denials@;
        if n > 0 && piece.get_char(0) == '*' {
            denials.push(ClientOnlyTags::DenyAll);
        } else if n > 0 && piece.get_char(0) == '-' {
            denials.push(ClientOnlyTags::Allowed(String::from_str(piece.substring_char(1, n))));
        } else {
            denials.push(ClientOnlyTags::Denied(String::from_str(piece)));
        }
        proof {
            assert(denials@.map_values(|t: ClientOnlyTags| t@) =~= before.map_values(
                |t: ClientOnlyTags| t@,
            ).push(spec_ctd_entry(pv[k as int])));
            assert(pv.take(k + 1).map_values(|p: Seq<char>| spec_ctd_entry(p)) =~= pv.take(
                k as int,
            ).map_values(|p: Seq<char>| spec_ctd_entry(p)).push(spec_ctd_entry(pv[k as int])));
        }
        k += 1;
    }
    proof {
        assert(pv.take(pieces@.len() as int) =~= pv);
        lemma_spec_split_len(value@, ',');
    }
    if denials.len() > 0 {
        Ok(Parameter::CLIENTTAGDENY(denials))
    } else {
        Err(ErrorReason::NoValidClientTagDenials)
    }
}

// CLIENTVER: a `<major>.<minor>` version number.
pub open spec fn spec_parse_clientver(value: Seq<char>) -> Result<SpecParameter, ErrorReason> {
    match spec_split_once(value, '.') {
        Some((major, minor)) => match (spec_parse_u16(major), spec_parse_u16(minor)) {
            (Some(a), Some(b)) => Ok(SpecParameter::CLIENTVER(a, b)),
            _ => Err(ErrorReason::InvalidClientVersion),
        },
        None => Err(ErrorReason::InvalidClientVersion),
    }
}

fn parse_clientver(value: &str) -> (r: Result<Parameter, ErrorReason>)
    ensures
        param_result_matches(r, spec_parse_clientver(value@)),
{
    match split_once_char(value, '.') {
        Some((major, minor)) => match (parse_u16(major), parse_u16(minor)) {
            (Some(a), Some(b)) => Ok(Parameter::CLIENTVER(a, b)),
            _ => Err(ErrorReason::InvalidClientVersion),
        },
        None => Err(ErrorReason::InvalidClientVersion),
    }
}

// ELIST: search-extension letters, uppercased for storage; only the
// extensions C, M, N, T, U exist.
pub open spec fn spec_is_search_extension(c: char) -> bool {
    c == 'C' || c == 'M' || c == 'N' || c == 'T' || c == 'U'
}

pub open spec fn spec_all_search_extensions(s: Seq<char>) -> bool {
    forall|i: int| 0 <= i < s.len() ==> spec_is_search_extension(s[i])
}

pub open spec fn spec_parse_elist(value: Seq<char>) -> Result<SpecParameter, ErrorReason> {
    if value.len() == 0 {
        Err(ErrorReason::ValueRequired)
    } else {
        let upper = upper_of(value);
        if spec_all_search_extensions(upper) {
            Ok(SpecParameter::ELIST(upper))
        } else {
            Err(ErrorReason::InvalidSearchExtensions)
        }
    }
}

fn parse_elist(value: &str) -> (r: Result<Parameter, ErrorReason>)
    ensures
        param_result_matches(r, spec_parse_elist(value@)),
{
    if value.unicode_len() == 0 {
        return Err(ErrorReason::ValueRequired);
    }
    let upper = to_uppercase(value);
    let us = upper.as_str();
    let n = us.unicode_len();
    let mut i: usize = 0;
    while i < n
        invariant
            value@.len() > 0,
            n == us@.len(),
            us@ == upper_of(value@),
            upper@ == upper_of(value@),
            0 <= i <= n,
            forall|j: int| 0 <= j < i ==> spec_is_search_extension(us@[j]),
        decreases n - i,
    {
        let c = us.get_char(i);
        if !(c == 'C' || c == 'M' || c == 'N' || c == 'T' || c == 'U') {
            proof {
                assert(!spec_is_search_extension(upper_of(value@)[i as int]));
            }
            return Err(ErrorReason::InvalidSearchExtensions);
        }
        i += 1;
    }
    Ok(Parameter::ELIST(upper))
}

// EXTBAN: `prefix,types`; an empty prefix means any prefix; the prefix must
// be ASCII and the types must be letters.
pub open spec fn spec_parse_extban(value: Seq<char>) -> Result<SpecParameter, ErrorReason> {
    match spec_split_once(value, ',') {
        Some((prefix, types)) => if spec_all_alphabetic(types) {
            if prefix.len() == 0 {
                Ok(SpecParameter::EXTBAN(None, types))
            } else if spec_all_ascii(prefix) {
                Ok(SpecParameter::EXTBAN(Some(prefix[0]), types))
            } else {
                Err(ErrorReason::InvalidExtendedBanPrefix)
            }
        } else {
            Err(ErrorReason::InvalidExtendedBanTypes)
        },
        None => Err(ErrorReason::NoValidExtendedBanMasks),
    }
}

fn parse_extban(value: &str) -> (r: Result<Parameter, ErrorReason>)
    ensures
        param_result_matches(r, spec_parse_extban(value@)),
{
    match split_once_char(value, ',') {
        Some((prefix, types)) => {
            if all_alphabetic(types) {
                if prefix.unicode_len() == 0 {
                    Ok(Parameter::EXTBAN(None, String::from_str(types)))
                } else if all_ascii(prefix) {
                    Ok(Parameter::EXTBAN(Some(prefix.get_char(0)), String::from_str(types)))
                } else {
                    Err(ErrorReason::InvalidExtendedBanPrefix)
                }
            } else {
                Err(ErrorReason::InvalidExtendedBanTypes)
            }
        },
        None => Err(ErrorReason::NoValidExtendedBanMasks),
    }
}

// MAXLIST: a comma list of `modes:limit`; both parts are required and must
// be well-formed, or the entry is dropped.
pub open spec fn spec_maxlist_entry(piece: Seq<char>) -> Seq<SpecModesLimit> {
    match spec_split_once(piece, ':') {
        Some((modes, limit)) => if modes.len() > 0 && spec_all_alphabetic(modes) {
            match spec_parse_u16(limit) {
                Some(l) => seq![(SpecModesLimit { modes, limit: l })],
                None => Seq::empty(),
            }
        } else {
            Seq::empty()
        },
        None => Seq::empty(),
    }
}

pub open spec fn spec_maxlist_list(pieces: Seq<Seq<char>>) -> Seq<SpecModesLimit>
    decreases pieces.len(),
{
    if pieces.len() == 0 {
        Seq::empty()
    } else {
        spec_maxlist_list(pieces.drop_last()) + spec_maxlist_entry(pieces.last())
    }
}

pub open spec fn spec_parse_maxlist(value: Seq<char>) -> Result<SpecParameter, ErrorReason> {
    let entries = spec_maxlist_list(spec_split(value, ','));
    if entries.len() > 0 {
        Ok(SpecParameter::MAXLIST(entries))
    } else {
        Err(ErrorReason::NoValidModesLimits)
    }
}

fn parse_maxlist(value: &str) -> (r: Result<Parameter, ErrorReason>)
    ensures
        param_result_matches(r, spec_parse_maxlist(value@)),
{
    let pieces = split_char(value, ',');
    let ghost pv = pieces@.map_values(|t: &str| t@);
    let mut entries: Vec<ModesLimit> = Vec::new();
    let mut k: usize = 0;
    while k < pieces.len()
        invariant
            pv == pieces@.map_values(|t: &str| t@),
            pv == spec_split(value@, ','),
            0 <= k <= pieces.len(),
            entries@.map_values(|m: ModesLimit| m@) == spec_maxlist_list(pv.take(k as int)),
        decreases pieces.len() - k,
    {
        let piece = pieces[k];
        match split_once_char(piece, ':') {
            Some((modes, limit)) => {
                if modes.unicode_len() > 0 && all_alphabetic(modes) {
                    match parse_u16(limit) {
                        Some(l) => {
                            let ghost before = entries@;
                            entries.push(ModesLimit { modes: String::from_str(modes), limit: l });
                            proof {
                                assert(entries@.map_values(|m: ModesLimit| m@)
                                    =~= before.map_values(|m: ModesLimit| m@).push(
                                    (SpecModesLimit { modes: modes@, limit: l }),
                                ));
                            }
                        },
                        None => {},
                    }
                }
            },
            None => {},
        }
        proof {
            assert(pv.take(k + 1).drop_last() =~= pv.take(k as int));
            assert(pv.take(k + 1).last() == pv[k as int]);
            assert(entries@.map_values(|m: ModesLimit| m@) =~= spec_maxlist_list(pv.take(k + 1)));
        }
        k += 1;
    }
    proof {
        assert(pv.take(pieces@.len() as int) =~= pv);
    }
    if entries.len() > 0 {
        Ok(Parameter::MAXLIST(entries))
    } else {
        Err(ErrorReason::NoValidModesLimits)
    }
}

// MSGREFTYPES: a comma list of `msgid` / `timestamp`; unknown entries are
// ignored; each recognized entry is inserted at the front, so the stored
// order is the reverse of the declared precedence.
pub open spec fn spec_msgreftypes_list(pieces: Seq<Seq<char>>) -> Seq<MessageReferenceType>
    decreases pieces.len(),
{
    if pieces.len() == 0 {
        Seq::empty()
    } else {
        let prev = spec_msgreftypes_list(pieces.drop_last());
        if pieces.last() == "msgid"@ {
            seq![MessageReferenceType::MessageId] + prev
        } else if pieces.last() == "timestamp"@ {
            seq![MessageReferenceType::Timestamp] + prev
        } else {
            prev
        }
    }
}

pub open spec fn spec_parse_msgreftypes(value: Seq<char>) -> Result<SpecParameter, ErrorReason> {
    Ok(SpecParameter::MSGREFTYPES(spec_msgreftypes_list(spec_split(value, ','))))
}

fn parse_msgreftypes(value: &str) -> (r: Result<Parameter, ErrorReason>)
    ensures
        param_result_matches(r, spec_parse_msgreftypes(value@)),
{
    let pieces = split_char(value, ',');
    let ghost pv = pieces@.map_values(|t: &str| t@);
    let mut types: Vec<MessageReferenceType> = Vec::new();
    let mut k: usize = 0;
    while k < pieces.len()
        invariant
            pv == pieces@.map_values(|t: &str| t@),
            pv == spec_split(value@, ','),
            0 <= k <= pieces.len(),
            types@ == spec_msgreftypes_list(pv.take(k as int)),
        decreases pieces.len() - k,
    {
        let piece = pieces[k];
        let ghost before = types@;
        if str_eq(piece, "msgid") {
            types.insert(0, MessageReferenceType::MessageId);
            proof {
                assert(types@ =~= seq![MessageReferenceType::MessageId] + before);
            }
        } else if str_eq(piece, "timestamp") {
            types.insert(0, MessageReferenceType::Timestamp);
            proof {
                assert(types@ =~= seq![MessageReferenceType::Timestamp] + before);
            }
        }
        proof {
            assert(pv.take(k + 1).drop_last() =~= pv.take(k as int));
            assert(pv.take(k + 1).last() == pv[k as int]);
        }
        k += 1;
    }
    proof {
        assert(pv.take(pieces@.len() as int) =~= pv);
    }
    Ok(Parameter::MSGREFTYPES(types))
}

// PREFIX: `(modeletters)prefixchars`, zipped positionally in order of
// descending privilege; a value without `)` is malformed.
pub open spec fn spec_mk_prefix_map(mode: char, prefix: char) -> PrefixMap {
    PrefixMap { mode, prefix }
}

pub open spec fn spec_prefix_pairs(modes: Seq<char>, prefixes: Seq<char>) -> Seq<PrefixMap> {
    let n = if modes.len() == 0 {
        0int
    } else if modes.len() - 1 <= prefixes.len() {
        modes.len() - 1
    } else {
        prefixes.len() as int
    };
    Seq::new(n as nat, |i: int| spec_mk_prefix_map(modes[i + 1], prefixes[i]))
}

pub open spec fn spec_parse_prefix(value: Seq<char>) -> Result<SpecParameter, ErrorReason> {
    match spec_split_once(value, ')') {
        Some((modes, prefixes)) => Ok(SpecParameter::PREFIX(spec_prefix_pairs(modes, prefixes))),
        None => Err(ErrorReason::UnrecognizedPrefixFormat),
    }
}

fn parse_prefix(value: &str) -> (r: Result<Parameter, ErrorReason>)
    ensures
        param_result_matches(r, spec_parse_prefix(value@)),
{
    match split_once_char(value, ')') {
        Some((modes, prefixes)) => {
            let mn = modes.unicode_len();
            let pn = prefixes.unicode_len();
            let count = if mn == 0 {
                0
            } else if mn - 1 <= pn {
                mn - 1
            } else {
                pn
            };
            let mut maps: Vec<PrefixMap> = Vec::new();
            let mut j: usize = 0;
            while j < count
                invariant
                    mn == modes@.len(),
                    pn == prefixes@.len(),
                    count == (if mn == 0 {
                        0int
                    } else if mn - 1 <= pn {
                        mn - 1
                    } else {
                        pn as int
                    }),
                    0 <= j <= count,
                    maps@ == spec_prefix_pairs(modes@, prefixes@).take(j as int),
                decreases count - j,
            {
                let mode = modes.get_char(j + 1);
                let prefix = prefixes.get_char(j);
                let ghost before = maps@;
                maps.push(PrefixMap { mode, prefix });
                proof {
                    assert(spec_prefix_pairs(modes@, prefixes@).take(j + 1) =~= before.push(
                        (PrefixMap { mode, prefix }),
                    ));
                }
                j += 1;
            }
            proof {
                assert(spec_prefix_pairs(modes@, prefixes@).take(count as int) =~= spec_prefix_pairs(
                    modes@,
                    prefixes@,
                ));
            }
            Ok(Parameter::PREFIX(maps))
        },
        None => Err(ErrorReason::UnrecognizedPrefixFormat),
    }
}

// STATUSMSG: the status-message prefix characters, stored as given.
pub open spec fn spec_parse_statusmsg(value: Seq<char>) -> Result<SpecParameter, ErrorReason> {
    Ok(SpecParameter::STATUSMSG(value))
}

fn parse_statusmsg(value: &str) -> (r: Result<Parameter, ErrorReason>)
    ensures
        param_result_matches(r, spec_parse_statusmsg(value@)),
{
    Ok(Parameter::STATUSMSG(chars_of(value)))
}

// TARGMAX: a comma list of `command:limit?`; the command is uppercased for
// storage; an empty limit means unlimited; malformed entries are dropped.
pub open spec fn spec_targmax_entry(piece: Seq<char>) -> Seq<SpecCommandTargetLimit> {
    match spec_split_once(piece, ':') {
        Some((command, limit)) => if command.len() > 0 && spec_all_alphabetic(command) {
            if limit.len() == 0 {
                seq![(SpecCommandTargetLimit { command: spec_ascii_upper(command), limit: None })]
            } else {
                match spec_parse_u16(limit) {
                    Some(l) => seq![
                        (SpecCommandTargetLimit {
                            command: spec_ascii_upper(command),
                            limit: Some(l),
                        }),
                    ],
                    None => Seq::empty(),
                }
            }
        } else {
            Seq::empty()
        },
        None => Seq::empty(),
    }
}

pub open spec fn spec_targmax_list(pieces: Seq<Seq<char>>) -> Seq<SpecCommandTargetLimit>
    decreases pieces.len(),
{
    if pieces.len() == 0 {
        Seq::empty()
    } else {
        spec_targmax_list(pieces.drop_last()) + spec_targmax_entry(pieces.last())
    }
}

pub open spec fn spec_parse_targmax(value: Seq<char>) -> Result<SpecParameter, ErrorReason> {
    let entries = spec_targmax_list(spec_split(value, ','));
    if entries.len() > 0 {
        Ok(SpecParameter::TARGMAX(entries))
    } else {
        Err(ErrorReason::NoValidCommandTargetLimits)
    }
}

fn parse_targmax(value: &str) -> (r: Result<Parameter, ErrorReason>)
    ensures
        param_result_matches(r, spec_parse_targmax(value@)),
{
    let pieces = split_char(value, ',');
    let ghost pv = pieces@.map_values(|t: &str| t@);
    let mut entries: Vec<CommandTargetLimit> = Vec::new();
    let mut k: usize = 0;
    while k < pieces.len()
        invariant
            pv == pieces@.map_values(|t: &str| t@),
            pv == spec_split(value@, ','),
            0 <= k <= pieces.len(),
            entries@.map_values(|t: CommandTargetLimit| t@) == spec_targmax_list(pv.take(k as int)),
        decreases pieces.len() - k,
    {
        let piece = pieces[k];
        match split_once_char(piece, ':') {
            Some((command, limit)) => {
                if command.unicode_len() > 0 && all_alphabetic(command) {
                    let stored_limit: Option<Option<u16>> = if limit.unicode_len() == 0 {
                        Some(None)
                    } else {
                        match parse_u16(limit) {
                            Some(l) => Some(Some(l)),
                            None => None,
                        }
                    };
                    match stored_limit {
                        Some(lim) => {
                            let ghost before = entries@;
                            entries.push(
                                CommandTargetLimit { command: ascii_upper(command), limit: lim },
                            );
                            proof {
                                assert(entries@.map_values(|t: CommandTargetLimit| t@)
                                    =~= before.map_values(|t: CommandTargetLimit| t@).push(
                                    (SpecCommandTargetLimit {
                                        command: spec_ascii_upper(command@),
                                        limit: lim,
                                    }),
                                ));
                            }
                        },
                        None => {},
                    }
                }
            },
            None => {},
        }
        proof {
            assert(pv.take(k + 1).drop_last() =~= pv.take(k as int));
            assert(pv.take(k + 1).last() == pv[k as int]);
            assert(entries@.map_values(|t: CommandTargetLimit| t@) =~= spec_targmax_list(
                pv.take(k + 1),
            ));
        }
        k += 1;
    }
    proof {
        assert(pv.take(pieces@.len() as int) =~= pv);
    }
    if entries.len() > 0 {
        Ok(Parameter::TARGMAX(entries))
    } else {
        Err(ErrorReason::NoValidCommandTargetLimits)
    }
}



// ---- default letters for keys with an implicit single-letter payload ----

pub const DEFAULT_BAN_EXCEPTION_CHANNEL_LETTER: char = 'e';

pub const DEFAULT_CALLER_ID_LETTER: char = 'g';

pub const DEFAULT_DEAF_LETTER: char = 'D';

pub const DEFAULT_INVITE_EXCEPTION_LETTER: char = 'I';

// ---- dispatch on the key ----

pub open spec fn spec_add(r: Result<SpecParameter, ErrorReason>) -> Result<
    SpecOperation,
    ErrorReason,
> {
    match r {
        Ok(p) => Ok(SpecOperation::Add(p)),
        Err(e) => Err(e),
    }
}

/// Relates an executable token parse to its model.
pub open spec fn op_result_matches(
    r: Result<Operation, ErrorReason>,
    s: Result<SpecOperation, ErrorReason>,
) -> bool {
    match (r, s) {
        (Ok(op), Ok(sop)) => op@ == sop,
        (Err(e), Err(se)) => e == se,
        _ => false,
    }
}

fn lift_add(r: Result<Parameter, ErrorReason>) -> (o: Result<Operation, ErrorReason>)
    ensures
        match r {
            Ok(p) => o == Ok::<Operation, ErrorReason>(Operation::Add(p)),
            Err(e) => o == Err::<Operation, ErrorReason>(e),
        },
{
    match r {
        Ok(p) => Ok(Operation::Add(p)),
        Err(e) => Err(e),
    }
}

/// The grammar of a `KEY=VALUE` token, dispatching on the key. Two keys
/// accept alias spellings: `draft/CHATHISTORY` for `CHATHISTORY` and
/// `MAXNICKLEN` for `NICKLEN`.
pub open spec fn spec_parse_with_value(key: Seq<char>, value: Seq<char>) -> Result<
    SpecOperation,
    ErrorReason,
> {
    if key == "ACCEPT"@ {
        spec_add(
            match spec_parse_u16(value) {
                Some(v) => Ok(SpecParameter::ACCEPT(v)),
                None => Err(ErrorReason::PositiveIntegerRequired),
            },
        )
    } else if key == "ACCOUNTEXTBAN"@ {
        spec_add(spec_parse_accountextban(value))
    } else if key == "AWAYLEN"@ {
        spec_add(
            match spec_parse_u16(value) {
                Some(v) => Ok(SpecParameter::AWAYLEN(v)),
                None => Err(ErrorReason::PositiveIntegerRequired),
            },
        )
    } else if key == "BOT"@ {
        spec_add(
            match spec_required_letter(value, None) {
                Ok(c) => Ok(SpecParameter::BOT(c)),
                Err(e) => Err(e),
            },
        )
    } else if key == "CALLERID"@ {
        spec_add(
            match spec_required_letter(value, None) {
                Ok(c) => Ok(SpecParameter::CALLERID(c)),
                Err(e) => Err(e),
            },
        )
    } else if key == "CASEMAPPING"@ {
        spec_add(spec_parse_casemapping(value))
    } else if key == "CHANLIMIT"@ {
        spec_add(spec_parse_chanlimit(value))
    } else if key == "CHANMODES"@ {
        spec_add(spec_parse_chanmodes(value))
    } else if key == "CHANNELLEN"@ {
        spec_add(
            match spec_parse_u16(value) {
                Some(v) => Ok(SpecParameter::CHANNELLEN(v)),
                None => Err(ErrorReason::PositiveIntegerRequired),
            },
        )
    } else if key == "CHANTYPES"@ {
        spec_add(spec_parse_chantypes(value))
    } else if key == "CHATHISTORY"@ || key == "draft/CHATHISTORY"@ {
        spec_add(
            match spec_parse_u16(value) {
                Some(v) => Ok(SpecParameter::CHATHISTORY(v)),
                None => Err(ErrorReason::PositiveIntegerRequired),
            },
        )
    } else if key == "CLIENTTAGDENY"@ {
        spec_add(spec_parse_clienttagdeny(value))
    } else if key == "CLIENTVER"@ {
        spec_add(spec_parse_clientver(value))
    } else if key == "CNOTICE"@ {
        Ok(SpecOperation::Add(SpecParameter::CNOTICE))
    } else if key == "CPRIVMSG"@ {
        Ok(SpecOperation::Add(SpecParameter::CPRIVMSG))
    } else if key == "DEAF"@ {
        spec_add(
            match spec_required_letter(value, None) {
                Ok(c) => Ok(SpecParameter::DEAF(c)),
                Err(e) => Err(e),
            },
        )
    } else if key == "ELIST"@ {
        spec_add(spec_parse_elist(value))
    } else if key == "ESILENCE"@ {
        spec_add(
            match spec_optional_letters(value) {
                Ok(o) => Ok(SpecParameter::ESILENCE(o)),
                Err(e) => Err(e),
            },
        )
    } else if key == "ETRACE"@ {
        Ok(SpecOperation::Add(SpecParameter::ETRACE))
    } else if key == "EXCEPTS"@ {
        spec_add(
            match spec_required_letter(value, None) {
                Ok(c) => Ok(SpecParameter::EXCEPTS(c)),
                Err(e) => Err(e),
            },
        )
    } else if key == "EXTBAN"@ {
        spec_add(spec_parse_extban(value))
    } else if key == "FNC"@ {
        Ok(SpecOperation::Add(SpecParameter::FNC))
    } else if key == "HOSTLEN"@ {
        spec_add(
            match spec_parse_u16(value) {
                Some(v) => Ok(SpecParameter::HOSTLEN(v)),
                None => Err(ErrorReason::PositiveIntegerRequired),
            },
        )
    } else if key == "INVEX"@ {
        spec_add(
            match spec_required_letter(value, None) {
                Ok(c) => Ok(SpecParameter::INVEX(c)),
                Err(e) => Err(e),
            },
        )
    } else if key == "KEYLEN"@ {
        spec_add(
            match spec_parse_u16(value) {
                Some(v) => Ok(SpecParameter::KEYLEN(v)),
                None => Err(ErrorReason::PositiveIntegerRequired),
            },
        )
    } else if key == "KICKLEN"@ {
        spec_add(
            match spec_parse_u16(value) {
                Some(v) => Ok(SpecParameter::KICKLEN(v)),
                None => Err(ErrorReason::PositiveIntegerRequired),
            },
        )
    } else if key == "KNOCK"@ {
        Ok(SpecOperation::Add(SpecParameter::KNOCK))
    } else if key == "LINELEN"@ {
        spec_add(
            match spec_parse_u16(value) {
                Some(v) => Ok(SpecParameter::LINELEN(v)),
                None => Err(ErrorReason::PositiveIntegerRequired),
            },
        )
    } else if key == "MAP"@ {
        Ok(SpecOperation::Add(SpecParameter::MAP))
    } else if key == "MAXBANS"@ {
        spec_add(
            match spec_parse_u16(value) {
                Some(v) => Ok(SpecParameter::MAXBANS(v)),
                None => Err(ErrorReason::PositiveIntegerRequired),
            },
        )
    } else if key == "MAXCHANNELS"@ {
        spec_add(
            match spec_parse_u16(value) {
                Some(v) => Ok(SpecParameter::MAXCHANNELS(v)),
                None => Err(ErrorReason::PositiveIntegerRequired),
            },
        )
    } else if key == "MAXLIST"@ {
        spec_add(spec_parse_maxlist(value))
    } else if key == "MAXPARA"@ {
        spec_add(
            match spec_parse_u16(value) {
                Some(v) => Ok(SpecParameter::MAXPARA(v)),
                None => Err(ErrorReason::PositiveIntegerRequired),
            },
        )
    } else if key == "MAXTARGETS"@ {
        spec_add(
            match spec_optional_positive_integer(value) {
                Ok(o) => Ok(SpecParameter::MAXTARGETS(o)),
                Err(e) => Err(e),
            },
        )
    } else if key == "METADATA"@ {
        spec_add(
            match spec_optional_positive_integer(value) {
                Ok(o) => Ok(SpecParameter::METADATA(o)),
                Err(e) => Err(e),
            },
        )
    } else if key == "MODES"@ {
        spec_add(
            match spec_optional_positive_integer(value) {
                Ok(o) => Ok(SpecParameter::MODES(o)),
                Err(e) => Err(e),
            },
        )
    } else if key == "MONITOR"@ {
        spec_add(
            match spec_optional_positive_integer(value) {
                Ok(o) => Ok(SpecParameter::MONITOR(o)),
                Err(e) => Err(e),
            },
        )
    } else if key == "MSGREFTYPES"@ {
        spec_add(spec_parse_msgreftypes(value))
    } else if key == "NAMELEN"@ {
        spec_add(
            match spec_parse_u16(value) {
                Some(v) => Ok(SpecParameter::NAMELEN(v)),
                None => Err(ErrorReason::PositiveIntegerRequired),
            },
        )
    } else if key == "NAMESX"@ {
        Ok(SpecOperation::Add(SpecParameter::NAMESX))
    } else if key == "NETWORK"@ {
        Ok(SpecOperation::Add(SpecParameter::NETWORK(value)))
    } else if key == "NICKLEN"@ || key == "MAXNICKLEN"@ {
        spec_add(
            match spec_parse_u16(value) {
                Some(v) => Ok(SpecParameter::NICKLEN(v)),
                None => Err(ErrorReason::PositiveIntegerRequired),
            },
        )
    } else if key == "OVERRIDE"@ {
        Ok(SpecOperation::Add(SpecParameter::OVERRIDE))
    } else if key == "PREFIX"@ {
        spec_add(spec_parse_prefix(value))
    } else if key == "SAFELIST"@ {
        Ok(SpecOperation::Add(SpecParameter::SAFELIST))
    } else if key == "SECURELIST"@ {
        Ok(SpecOperation::Add(SpecParameter::SECURELIST))
    } else if key == "SILENCE"@ {
        spec_add(
            match spec_optional_positive_integer(value) {
                Ok(o) => Ok(SpecParameter::SILENCE(o)),
                Err(e) => Err(e),
            },
        )
    } else if key == "STATUSMSG"@ {
        spec_add(spec_parse_statusmsg(value))
    } else if key == "TARGMAX"@ {
        spec_add(spec_parse_targmax(value))
    } else if key == "TOPICLEN"@ {
        spec_add(
            match spec_parse_u16(value) {
                Some(v) => Ok(SpecParameter::TOPICLEN(v)),
                None => Err(ErrorReason::PositiveIntegerRequired),
            },
        )
    } else if key == "UHNAMES"@ {
        Ok(SpecOperation::Add(SpecParameter::UHNAMES))
    } else if key == "USERIP"@ {
        Ok(SpecOperation::Add(SpecParameter::USERIP))
    } else if key == "USERLEN"@ {
        spec_add(
            match spec_parse_u16(value) {
                Some(v) => Ok(SpecParameter::USERLEN(v)),
                None => Err(ErrorReason::PositiveIntegerRequired),
            },
        )
    } else if key == "UTF8ONLY"@ {
        Ok(SpecOperation::Add(SpecParameter::UTF8ONLY))
    } else if key == "VLIST"@ {
        spec_add(
            match spec_required_letters(value) {
                Ok(s) => Ok(SpecParameter::VLIST(s)),
                Err(e) => Err(e),
            },
        )
    } else if key == "WATCH"@ {
        spec_add(
            match spec_parse_u16(value) {
                Some(v) => Ok(SpecParameter::WATCH(v)),
                None => Err(ErrorReason::PositiveIntegerRequired),
            },
        )
    } else if key == "WHOX"@ {
        Ok(SpecOperation::Add(SpecParameter::WHOX))
    } else {
        Err(ErrorReason::UnknownParameter)
    }
}

#[verifier::rlimit(100)]
fn parse_with_value(key: &str, value: &str) -> (r: Result<Operation, ErrorReason>)
    ensures
        op_result_matches(r, spec_parse_with_value(key@, value@)),
{
    if str_eq(key, "ACCEPT") {
        match parse_required_positive_integer(value) {
            Ok(v) => Ok(Operation::Add(Parameter::ACCEPT(v))),
            Err(e) => Err(e),
        }
    } else if str_eq(key, "ACCOUNTEXTBAN") {
        lift_add(parse_accountextban(value))
    } else if str_eq(key, "AWAYLEN") {
        match parse_required_positive_integer(value) {
            Ok(v) => Ok(Operation::Add(Parameter::AWAYLEN(v))),
            Err(e) => Err(e),
        }
    } else if str_eq(key, "BOT") {
        match parse_required_letter(value, None) {
            Ok(c) => Ok(Operation::Add(Parameter::BOT(c))),
            Err(e) => Err(e),
        }
    } else if str_eq(key, "CALLERID") {
        match parse_required_letter(value, None) {
            Ok(c) => Ok(Operation::Add(Parameter::CALLERID(c))),
            Err(e) => Err(e),
        }
    } else if str_eq(key, "CASEMAPPING") {
        lift_add(parse_casemapping(value))
    } else if str_eq(key, "CHANLIMIT") {
        lift_add(parse_chanlimit(value))
    } else if str_eq(key, "CHANMODES") {
        lift_add(parse_chanmodes(value))
    } else if str_eq(key, "CHANNELLEN") {
        match parse_required_positive_integer(value) {
            Ok(v) => Ok(Operation::Add(Parameter::CHANNELLEN(v))),
            Err(e) => Err(e),
        }
    } else if str_eq(key, "CHANTYPES") {
        lift_add(parse_chantypes(value))
    } else if str_eq(key, "CHATHISTORY") || str_eq(key, "draft/CHATHISTORY") {
        match parse_required_positive_integer(value) {
            Ok(v) => Ok(Operation::Add(Parameter::CHATHISTORY(v))),
            Err(e) => Err(e),
        }
    } else if str_eq(key, "CLIENTTAGDENY") {
        lift_add(parse_clienttagdeny(value))
    } else if str_eq(key, "CLIENTVER") {
        lift_add(parse_clientver(value))
    } else if str_eq(key, "CNOTICE") {
        Ok(Operation::Add(Parameter::CNOTICE))
    } else if str_eq(key, "CPRIVMSG") {
        Ok(Operation::Add(Parameter::CPRIVMSG))
    } else if str_eq(key, "DEAF") {
        match parse_required_letter(value, None) {
            Ok(c) => Ok(Operation::Add(Parameter::DEAF(c))),
            Err(e) => Err(e),
        }
    } else if str_eq(key, "ELIST") {
        lift_add(parse_elist(value))
    } else if str_eq(key, "ESILENCE") {
        match parse_optional_letters(value) {
            Ok(o) => Ok(Operation::Add(Parameter::ESILENCE(o))),
            Err(e) => Err(e),
        }
    } else if str_eq(key, "ETRACE") {
        Ok(Operation::Add(Parameter::ETRACE))
    } else if str_eq(key, "EXCEPTS") {
        match parse_required_letter(value, None) {
            Ok(c) => Ok(Operation::Add(Parameter::EXCEPTS(c))),
            Err(e) => Err(e),
        }
    } else if str_eq(key, "EXTBAN") {
        lift_add(parse_extban(value))
    } else if str_eq(key, "FNC") {
        Ok(Operation::Add(Parameter::FNC))
    } else if str_eq(key, "HOSTLEN") {
        match parse_required_positive_integer(value) {
            Ok(v) => Ok(Operation::Add(Parameter::HOSTLEN(v))),
            Err(e) => Err(e),
        }
    } else if str_eq(key, "INVEX") {
        match parse_required_letter(value, None) {
            Ok(c) => Ok(Operation::Add(Parameter::INVEX(c))),
            Err(e) => Err(e),
        }
    } else if str_eq(key, "KEYLEN") {
        match parse_required_positive_integer(value) {
            Ok(v) => Ok(Operation::Add(Parameter::KEYLEN(v))),
            Err(e) => Err(e),
        }
    } else if str_eq(key, "KICKLEN") {
        match parse_required_positive_integer(value) {
            Ok(v) => Ok(Operation::Add(Parameter::KICKLEN(v))),
            Err(e) => Err(e),
        }
    } else if str_eq(key, "KNOCK") {
        Ok(Operation::Add(Parameter::KNOCK))
    } else if str_eq(key, "LINELEN") {
        match parse_required_positive_integer(value) {
            Ok(v) => Ok(Operation::Add(Parameter::LINELEN(v))),
            Err(e) => Err(e),
        }
    } else if str_eq(key, "MAP") {
        Ok(Operation::Add(Parameter::MAP))
    } else if str_eq(key, "MAXBANS") {
        match parse_required_positive_integer(value) {
            Ok(v) => Ok(Operation::Add(Parameter::MAXBANS(v))),
            Err(e) => Err(e),
        }
    } else if str_eq(key, "MAXCHANNELS") {
        match parse_required_positive_integer(value) {
            Ok(v) => Ok(Operation::Add(Parameter::MAXCHANNELS(v))),
            Err(e) => Err(e),
        }
    } else if str_eq(key, "MAXLIST") {
        lift_add(parse_maxlist(value))
    } else if str_eq(key, "MAXPARA") {
        match parse_required_positive_integer(value) {
            Ok(v) => Ok(Operation::Add(Parameter::MAXPARA(v))),
            Err(e) => Err(e),
        }
    } else if str_eq(key, "MAXTARGETS") {
        match parse_optional_positive_integer(value) {
            Ok(o) => Ok(Operation::Add(Parameter::MAXTARGETS(o))),
            Err(e) => Err(e),
        }
    } else if str_eq(key, "METADATA") {
        match parse_optional_positive_integer(value) {
            Ok(o) => Ok(Operation::Add(Parameter::METADATA(o))),
            Err(e) => Err(e),
        }
    } else if str_eq(key, "MODES") {
        match parse_optional_positive_integer(value) {
            Ok(o) => Ok(Operation::Add(Parameter::MODES(o))),
            Err(e) => Err(e),
        }
    } else if str_eq(key, "MONITOR") {
        match parse_optional_positive_integer(value) {
            Ok(o) => Ok(Operation::Add(Parameter::MONITOR(o))),
            Err(e) => Err(e),
        }
    } else if str_eq(key, "MSGREFTYPES") {
        lift_add(parse_msgreftypes(value))
    } else if str_eq(key, "NAMELEN") {
        match parse_required_positive_integer(value) {
            Ok(v) => Ok(Operation::Add(Parameter::NAMELEN(v))),
            Err(e) => Err(e),
        }
    } else if str_eq(key, "NAMESX") {
        Ok(Operation::Add(Parameter::NAMESX))
    } else if str_eq(key, "NETWORK") {
        Ok(Operation::Add(Parameter::NETWORK(String::from_str(value))))
    } else if str_eq(key, "NICKLEN") || str_eq(key, "MAXNICKLEN") {
        match parse_required_positive_integer(value) {
            Ok(v) => Ok(Operation::Add(Parameter::NICKLEN(v))),
            Err(e) => Err(e),
        }
    } else if str_eq(key, "OVERRIDE") {
        Ok(Operation::Add(Parameter::OVERRIDE))
    } else if str_eq(key, "PREFIX") {
        lift_add(parse_prefix(value))
    } else if str_eq(key, "SAFELIST") {
        Ok(Operation::Add(Parameter::SAFELIST))
    } else if str_eq(key, "SECURELIST") {
        Ok(Operation::Add(Parameter::SECURELIST))
    } else if str_eq(key, "SILENCE") {
        match parse_optional_positive_integer(value) {
            Ok(o) => Ok(Operation::Add(Parameter::SILENCE(o))),
            Err(e) => Err(e),
        }
    } else if str_eq(key, "STATUSMSG") {
        lift_add(parse_statusmsg(value))
    } else if str_eq(key, "TARGMAX") {
        lift_add(parse_targmax(value))
    } else if str_eq(key, "TOPICLEN") {
        match parse_required_positive_integer(value) {
            Ok(v) => Ok(Operation::Add(Parameter::TOPICLEN(v))),
            Err(e) => Err(e),
        }
    } else if str_eq(key, "UHNAMES") {
        Ok(Operation::Add(Parameter::UHNAMES))
    } else if str_eq(key, "USERIP") {
        Ok(Operation::Add(Parameter::USERIP))
    } else if str_eq(key, "USERLEN") {
        match parse_required_positive_integer(value) {
            Ok(v) => Ok(Operation::Add(Parameter::USERLEN(v))),
            Err(e) => Err(e),
        }
    } else if str_eq(key, "UTF8ONLY") {
        Ok(Operation::Add(Parameter::UTF8ONLY))
    } else if str_eq(key, "VLIST") {
        match parse_required_letters(value) {
            Ok(s) => Ok(Operation::Add(Parameter::VLIST(s))),
            Err(e) => Err(e),
        }
    } else if str_eq(key, "WATCH") {
        match parse_required_positive_integer(value) {
            Ok(v) => Ok(Operation::Add(Parameter::WATCH(v))),
            Err(e) => Err(e),
        }
    } else if str_eq(key, "WHOX") {
        Ok(Operation::Add(Parameter::WHOX))
    } else {
        Err(ErrorReason::UnknownParameter)
    }
}

/// The grammar of a bare `KEY` token: boolean-style keys succeed with a
/// fixed payload, a fixed subset falls back to a default letter, and keys
/// that require a value fail.
pub open spec fn spec_parse_no_value(key: Seq<char>) -> Result<SpecOperation, ErrorReason> {
    if key == "ACCEPT"@ {
        Err(ErrorReason::ValueRequired)
    } else if key == "ACCOUNTEXTBAN"@ {
        Err(ErrorReason::ValuesRequired)
    } else if key == "AWAYLEN"@ {
        Err(ErrorReason::ValueRequired)
    } else if key == "BOT"@ {
        Err(ErrorReason::ValueRequired)
    } else if key == "CALLERID"@ {
        Ok(SpecOperation::Add(SpecParameter::CALLERID(DEFAULT_CALLER_ID_LETTER)))
    } else if key == "CASEMAPPING"@ {
        Err(ErrorReason::ValueRequired)
    } else if key == "CHANLIMIT"@ {
        Err(ErrorReason::ValuesRequired)
    } else if key == "CHANMODES"@ {
        Err(ErrorReason::ValuesRequired)
    } else if key == "CHANNELLEN"@ {
        Err(ErrorReason::ValueRequired)
    } else if key == "CHANTYPES"@ {
        Ok(SpecOperation::Add(SpecParameter::CHANTYPES(None)))
    } else if key == "CHATHISTORY"@ {
        Err(ErrorReason::ValueRequired)
    } else if key == "CLIENTTAGDENY"@ {
        Err(ErrorReason::ValuesRequired)
    } else if key == "CLIENTVER"@ {
        Err(ErrorReason::ValueRequired)
    } else if key == "DEAF"@ {
        Ok(SpecOperation::Add(SpecParameter::DEAF(DEFAULT_DEAF_LETTER)))
    } else if key == "ELIST"@ {
        Err(ErrorReason::ValueRequired)
    } else if key == "ESILENCE"@ {
        Ok(SpecOperation::Add(SpecParameter::ESILENCE(None)))
    } else if key == "ETRACE"@ {
        Ok(SpecOperation::Add(SpecParameter::ETRACE))
    } else if key == "EXCEPTS"@ {
        Ok(SpecOperation::Add(SpecParameter::EXCEPTS(DEFAULT_BAN_EXCEPTION_CHANNEL_LETTER)))
    } else if key == "EXTBAN"@ {
        Err(ErrorReason::ValueRequired)
    } else if key == "FNC"@ {
        Ok(SpecOperation::Add(SpecParameter::FNC))
    } else if key == "HOSTLEN"@ {
        Err(ErrorReason::ValueRequired)
    } else if key == "INVEX"@ {
        Ok(SpecOperation::Add(SpecParameter::INVEX(DEFAULT_INVITE_EXCEPTION_LETTER)))
    } else if key == "KEYLEN"@ {
        Err(ErrorReason::ValueRequired)
    } else if key == "KICKLEN"@ {
        Err(ErrorReason::ValueRequired)
    } else if key == "KNOCK"@ {
        Ok(SpecOperation::Add(SpecParameter::KNOCK))
    } else if key == "LINELEN"@ {
        Err(ErrorReason::ValueRequired)
    } else if key == "MAP"@ {
        Ok(SpecOperation::Add(SpecParameter::MAP))
    } else if key == "MAXBANS"@ {
        Err(ErrorReason::ValueRequired)
    } else if key == "MAXCHANNELS"@ {
        Err(ErrorReason::ValueRequired)
    } else if key == "MAXLIST"@ {
        Err(ErrorReason::ValuesRequired)
    } else if key == "MAXPARA"@ {
        Err(ErrorReason::ValueRequired)
    } else if key == "MAXTARGETS"@ {
        Ok(SpecOperation::Add(SpecParameter::MAXTARGETS(None)))
    } else if key == "METADATA"@ {
        Ok(SpecOperation::Add(SpecParameter::METADATA(None)))
    } else if key == "MODES"@ {
        Ok(SpecOperation::Add(SpecParameter::MODES(None)))
    } else if key == "MONITOR"@ {
        Ok(SpecOperation::Add(SpecParameter::MONITOR(None)))
    } else if key == "MSGREFTYPES"@ {
        Ok(SpecOperation::Add(SpecParameter::MSGREFTYPES(Seq::empty())))
    } else if key == "NAMESX"@ {
        Ok(SpecOperation::Add(SpecParameter::NAMESX))
    } else if key == "NAMELEN"@ {
        Err(ErrorReason::ValueRequired)
    } else if key == "NETWORK"@ {
        Err(ErrorReason::ValueRequired)
    } else if key == "NICKLEN"@ || key == "MAXNICKLEN"@ {
        Err(ErrorReason::ValueRequired)
    } else if key == "OVERRIDE"@ {
        Ok(SpecOperation::Add(SpecParameter::OVERRIDE))
    } else if key == "PREFIX"@ {
        Ok(SpecOperation::Add(SpecParameter::PREFIX(Seq::empty())))
    } else if key == "SAFELIST"@ {
        Ok(SpecOperation::Add(SpecParameter::SAFELIST))
    } else if key == "SECURELIST"@ {
        Ok(SpecOperation::Add(SpecParameter::SECURELIST))
    } else if key == "SILENCE"@ {
        Ok(SpecOperation::Add(SpecParameter::SILENCE(None)))
    } else if key == "STATUSMSG"@ {
        Err(ErrorReason::ValueRequired)
    } else if key == "TARGMAX"@ {
        Ok(SpecOperation::Add(SpecParameter::TARGMAX(Seq::empty())))
    } else if key == "TOPICLEN"@ {
        Err(ErrorReason::ValueRequired)
    } else if key == "UHNAMES"@ {
        Ok(SpecOperation::Add(SpecParameter::UHNAMES))
    } else if key == "USERIP"@ {
        Ok(SpecOperation::Add(SpecParameter::USERIP))
    } else if key == "USERLEN"@ {
        Err(ErrorReason::ValueRequired)
    } else if key == "UTF8ONLY"@ {
        Ok(SpecOperation::Add(SpecParameter::UTF8ONLY))
    } else if key == "VLIST"@ {
        Err(ErrorReason::ValueRequired)
    } else if key == "WATCH"@ {
        Err(ErrorReason::ValueRequired)
    } else if key == "WHOX"@ {
        Ok(SpecOperation::Add(SpecParameter::WHOX))
    } else {
        Err(ErrorReason::UnknownParameter)
    }
}

#[verifier::rlimit(100)]
fn parse_no_value(key: &str) -> (r: Result<Operation, ErrorReason>)
    ensures
        op_result_matches(r, spec_parse_no_value(key@)),
{
    if str_eq(key, "ACCEPT") {
        Err(ErrorReason::ValueRequired)
    } else if str_eq(key, "ACCOUNTEXTBAN") {
        Err(ErrorReason::ValuesRequired)
    } else if str_eq(key, "AWAYLEN") {
        Err(ErrorReason::ValueRequired)
    } else if str_eq(key, "BOT") {
        Err(ErrorReason::ValueRequired)
    } else if str_eq(key, "CALLERID") {
        Ok(Operation::Add(Parameter::CALLERID(DEFAULT_CALLER_ID_LETTER)))
    } else if str_eq(key, "CASEMAPPING") {
        Err(ErrorReason::ValueRequired)
    } else if str_eq(key, "CHANLIMIT") {
        Err(ErrorReason::ValuesRequired)
    } else if str_eq(key, "CHANMODES") {
        Err(ErrorReason::ValuesRequired)
    } else if str_eq(key, "CHANNELLEN") {
        Err(ErrorReason::ValueRequired)
    } else if str_eq(key, "CHANTYPES") {
        Ok(Operation::Add(Parameter::CHANTYPES(None)))
    } else if str_eq(key, "CHATHISTORY") {
        Err(ErrorReason::ValueRequired)
    } else if str_eq(key, "CLIENTTAGDENY") {
        Err(ErrorReason::ValuesRequired)
    } else if str_eq(key, "CLIENTVER") {
        Err(ErrorReason::ValueRequired)
    } else if str_eq(key, "DEAF") {
        Ok(Operation::Add(Parameter::DEAF(DEFAULT_DEAF_LETTER)))
    } else if str_eq(key, "ELIST") {
        Err(ErrorReason::ValueRequired)
    } else if str_eq(key, "ESILENCE") {
        Ok(Operation::Add(Parameter::ESILENCE(None)))
    } else if str_eq(key, "ETRACE") {
        Ok(Operation::Add(Parameter::ETRACE))
    } else if str_eq(key, "EXCEPTS") {
        Ok(Operation::Add(Parameter::EXCEPTS(DEFAULT_BAN_EXCEPTION_CHANNEL_LETTER)))
    } else if str_eq(key, "EXTBAN") {
        Err(ErrorReason::ValueRequired)
    } else if str_eq(key, "FNC") {
        Ok(Operation::Add(Parameter::FNC))
    } else if str_eq(key, "HOSTLEN") {
        Err(ErrorReason::ValueRequired)
    } else if str_eq(key, "INVEX") {
        Ok(Operation::Add(Parameter::INVEX(DEFAULT_INVITE_EXCEPTION_LETTER)))
    } else if str_eq(key, "KEYLEN") {
        Err(ErrorReason::ValueRequired)
    } else if str_eq(key, "KICKLEN") {
        Err(ErrorReason::ValueRequired)
    } else if str_eq(key, "KNOCK") {
        Ok(Operation::Add(Parameter::KNOCK))
    } else if str_eq(key, "LINELEN") {
        Err(ErrorReason::ValueRequired)
    } else if str_eq(key, "MAP") {
        Ok(Operation::Add(Parameter::MAP))
    } else if str_eq(key, "MAXBANS") {
        Err(ErrorReason::ValueRequired)
    } else if str_eq(key, "MAXCHANNELS") {
        Err(ErrorReason::ValueRequired)
    } else if str_eq(key, "MAXLIST") {
        Err(ErrorReason::ValuesRequired)
    } else if str_eq(key, "MAXPARA") {
        Err(ErrorReason::ValueRequired)
    } else if str_eq(key, "MAXTARGETS") {
        Ok(Operation::Add(Parameter::MAXTARGETS(None)))
    } else if str_eq(key, "METADATA") {
        Ok(Operation::Add(Parameter::METADATA(None)))
    } else if str_eq(key, "MODES") {
        Ok(Operation::Add(Parameter::MODES(None)))
    } else if str_eq(key, "MONITOR") {
        Ok(Operation::Add(Parameter::MONITOR(None)))
    } else if str_eq(key, "MSGREFTYPES") {
        Ok(Operation::Add(Parameter::MSGREFTYPES(Vec::new())))
    } else if str_eq(key, "NAMESX") {
        Ok(Operation::Add(Parameter::NAMESX))
    } else if str_eq(key, "NAMELEN") {
        Err(ErrorReason::ValueRequired)
    } else if str_eq(key, "NETWORK") {
        Err(ErrorReason::ValueRequired)
    } else if str_eq(key, "NICKLEN") || str_eq(key, "MAXNICKLEN") {
        Err(ErrorReason::ValueRequired)
    } else if str_eq(key, "OVERRIDE") {
        Ok(Operation::Add(Parameter::OVERRIDE))
    } else if str_eq(key, "PREFIX") {
        Ok(Operation::Add(Parameter::PREFIX(Vec::new())))
    } else if str_eq(key, "SAFELIST") {
        Ok(Operation::Add(Parameter::SAFELIST))
    } else if str_eq(key, "SECURELIST") {
        Ok(Operation::Add(Parameter::SECURELIST))
    } else if str_eq(key, "SILENCE") {
        Ok(Operation::Add(Parameter::SILENCE(None)))
    } else if str_eq(key, "STATUSMSG") {
        Err(ErrorReason::ValueRequired)
    } else if str_eq(key, "TARGMAX") {
        let v: Vec<CommandTargetLimit> = Vec::new();
        proof {
            assert(v@.map_values(|t: CommandTargetLimit| t@) =~= Seq::<
                SpecCommandTargetLimit,
            >::empty());
        }
        Ok(Operation::Add(Parameter::TARGMAX(v)))
    } else if str_eq(key, "TOPICLEN") {
        Err(ErrorReason::ValueRequired)
    } else if str_eq(key, "UHNAMES") {
        Ok(Operation::Add(Parameter::UHNAMES))
    } else if str_eq(key, "USERIP") {
        Ok(Operation::Add(Parameter::USERIP))
    } else if str_eq(key, "USERLEN") {
        Err(ErrorReason::ValueRequired)
    } else if str_eq(key, "UTF8ONLY") {
        Ok(Operation::Add(Parameter::UTF8ONLY))
    } else if str_eq(key, "VLIST") {
        Err(ErrorReason::ValueRequired)
    } else if str_eq(key, "WATCH") {
        Err(ErrorReason::ValueRequired)
    } else if str_eq(key, "WHOX") {
        Ok(Operation::Add(Parameter::WHOX))
    } else {
        Err(ErrorReason::UnknownParameter)
    }
}

// ---- the token entry point ----

/// The grammar of one whole token: an empty token is an error, a leading
/// `-` always parses as a removal, and otherwise the token is split on its
/// first `=` and dispatched on the key.
pub open spec fn spec_parse_token(token: Seq<char>) -> Result<SpecOperation, ErrorReason> {
    if token.len() == 0 {
        Err(ErrorReason::EmptyToken)
    } else if token[0] == '-' {
        Ok(SpecOperation::Remove(token.skip(1)))
    } else {
        match spec_split_once(token, '=') {
            Some((key, value)) => spec_parse_with_value(key, value),
            None => spec_parse_no_value(token),
        }
    }
}

impl Operation {
    /// Parses one whitespace-delimited `ISUPPORT` token. A failure is
    /// token-scoped: the caller skips the token and continues with the
    /// rest of the line.
    pub fn parse(token: &str) -> (r: Result<Operation, ErrorReason>)
        ensures
            op_result_matches(r, spec_parse_token(token@)),
    {
        let n = token.unicode_len();
        if n == 0 {
            return Err(ErrorReason::EmptyToken);
        }
        if token.get_char(0) == '-' {
            let rest = token.substring_char(1, n);
            return Ok(Operation::Remove(String::from_str(rest)));
        }
        match split_once_char(token, '=') {
            Some((key, value)) => parse_with_value(key, value),
            None => parse_no_value(token),
        }
    }
}

// ---- the key a removal resolves to ----

/// The fixed name-to-key table used by removals; names outside the table
/// resolve to nothing and the removal is a no-op at the table layer.
pub open spec fn spec_remove_kind(name: Seq<char>) -> Option<Kind> {
    if name == "AWAYLEN"@ {
        Some(Kind::AWAYLEN)
    } else if name == "CASEMAPPING"@ {
        Some(Kind::CASEMAPPING)
    } else if name == "CHANLIMIT"@ {
        Some(Kind::CHANLIMIT)
    } else if name == "CHANMODES"@ {
        Some(Kind::CHANMODES)
    } else if name == "CHANNELLEN"@ {
        Some(Kind::CHANNELLEN)
    } else if name == "CHANTYPES"@ {
        Some(Kind::CHANTYPES)
    } else if name == "CHATHISTORY"@ {
        Some(Kind::CHATHISTORY)
    } else if name == "CNOTICE"@ {
        Some(Kind::CNOTICE)
    } else if name == "CPRIVMSG"@ {
        Some(Kind::CPRIVMSG)
    } else if name == "ELIST"@ {
        Some(Kind::ELIST)
    } else if name == "KEYLEN"@ {
        Some(Kind::KEYLEN)
    } else if name == "KICKLEN"@ {
        Some(Kind::KICKLEN)
    } else if name == "KNOCK"@ {
        Some(Kind::KNOCK)
    } else if name == "MODES"@ {
        Some(Kind::MODES)
    } else if name == "MONITOR"@ {
        Some(Kind::MONITOR)
    } else if name == "MSGREFTYPES"@ {
        Some(Kind::MSGREFTYPES)
    } else if name == "NAMELEN"@ {
        Some(Kind::NAMELEN)
    } else if name == "NICKLEN"@ {
        Some(Kind::NICKLEN)
    } else if name == "PREFIX"@ {
        Some(Kind::PREFIX)
    } else if name == "SAFELIST"@ {
        Some(Kind::SAFELIST)
    } else if name == "STATUSMSG"@ {
        Some(Kind::STATUSMSG)
    } else if name == "TARGMAX"@ {
        Some(Kind::TARGMAX)
    } else if name == "TOPICLEN"@ {
        Some(Kind::TOPICLEN)
    } else if name == "USERIP"@ {
        Some(Kind::USERIP)
    } else if name == "UTF8ONLY"@ {
        Some(Kind::UTF8ONLY)
    } else if name == "WHOX"@ {
        Some(Kind::WHOX)
    } else {
        None
    }
}

/// The key an operation touches: the payload's own key for additions, the
/// fixed name table for removals.
pub open spec fn spec_op_kind(op: SpecOperation) -> Option<Kind> {
    match op {
        SpecOperation::Add(p) => spec_param_kind(p),
        SpecOperation::Remove(name) => spec_remove_kind(name),
    }
}

impl Operation {
    /// The table key this operation touches, if any.
    pub fn kind(&self) -> (r: Option<Kind>)
        ensures
            r == spec_op_kind(self@),
    {
        match self {
            Operation::Add(parameter) => parameter.kind(),
            Operation::Remove(parameter) => remove_kind(parameter.as_str()),
        }
    }
}

/// The fixed name-to-kind table used by removals, as an executable lookup.
#[verifier::rlimit(100)]
pub fn remove_kind(name: &str) -> (r: Option<Kind>)
    ensures
        r == spec_remove_kind(name@),
{
    if str_eq(name, "AWAYLEN") {
        Some(Kind::AWAYLEN)
    } else if str_eq(name, "CASEMAPPING") {
        Some(Kind::CASEMAPPING)
    } else if str_eq(name, "CHANLIMIT") {
        Some(Kind::CHANLIMIT)
    } else if str_eq(name, "CHANMODES") {
        Some(Kind::CHANMODES)
    } else if str_eq(name, "CHANNELLEN") {
        Some(Kind::CHANNELLEN)
    } else if str_eq(name, "CHANTYPES") {
        Some(Kind::CHANTYPES)
    } else if str_eq(name, "CHATHISTORY") {
        Some(Kind::CHATHISTORY)
    } else if str_eq(name, "CNOTICE") {
        Some(Kind::CNOTICE)
    } else if str_eq(name, "CPRIVMSG") {
        Some(Kind::CPRIVMSG)
    } else if str_eq(name, "ELIST") {
        Some(Kind::ELIST)
    } else if str_eq(name, "KEYLEN") {
        Some(Kind::KEYLEN)
    } else if str_eq(name, "KICKLEN") {
        Some(Kind::KICKLEN)
    } else if str_eq(name, "KNOCK") {
        Some(Kind::KNOCK)
    } else if str_eq(name, "MODES") {
        Some(Kind::MODES)
    } else if str_eq(name, "MONITOR") {
        Some(Kind::MONITOR)
    } else if str_eq(name, "MSGREFTYPES") {
        Some(Kind::MSGREFTYPES)
    } else if str_eq(name, "NAMELEN") {
        Some(Kind::NAMELEN)
    } else if str_eq(name, "NICKLEN") {
        Some(Kind::NICKLEN)
    } else if str_eq(name, "PREFIX") {
        Some(Kind::PREFIX)
    } else if str_eq(name, "SAFELIST") {
        Some(Kind::SAFELIST)
    } else if str_eq(name, "STATUSMSG") {
        Some(Kind::STATUSMSG)
    } else if str_eq(name, "TARGMAX") {
        Some(Kind::TARGMAX)
    } else if str_eq(name, "TOPICLEN") {
        Some(Kind::TOPICLEN)
    } else if str_eq(name, "USERIP") {
        Some(Kind::USERIP)
    } else if str_eq(name, "UTF8ONLY") {
        Some(Kind::UTF8ONLY)
    } else if str_eq(name, "WHOX") {
        Some(Kind::WHOX)
    } else {
        None
    }
}


/// A token beginning with `-` always parses, to a removal of the rest of
/// the token, whether or not the name is recognized.
pub proof fn lemma_removal_never_fails(token: Seq<char>)
    requires
        token.len() > 0,
        token[0] == '-',
    ensures
        spec_parse_token(token) == Ok::<SpecOperation, ErrorReason>(
            SpecOperation::Remove(token.skip(1)),
        ),
{
}


/// Within one parsed CHANMODES list the class letters strictly increase,
/// so each letter tag is populated at most once.
pub proof fn lemma_chanmodes_letters_distinct(pieces: Seq<Seq<char>>, n: int)
    requires
        0 <= n <= 26,
    ensures
        forall|i: int, j: int|
            0 <= i < j < spec_chanmodes_list(pieces, n).len() ==> (spec_chanmodes_list(
                pieces,
                n,
            )[i].kind as u32) < (spec_chanmodes_list(pieces, n)[j].kind as u32),
        forall|i: int|
            0 <= i < spec_chanmodes_list(pieces, n).len() ==> (spec_chanmodes_list(
                pieces,
                n,
            )[i].kind as u32) < 65 + n,
    decreases n,
{
    if n > 0 {
        lemma_chanmodes_letters_distinct(pieces, n - 1);
        let prev = spec_chanmodes_list(pieces, n - 1);
        let cur = spec_chanmodes_list(pieces, n);
        assert(spec_class_letter(n - 1) as u32 == 65 + n - 1);
        if pieces[n - 1].len() > 0 && spec_all_alphabetic(pieces[n - 1]) {
            assert(cur == prev + seq![
                (SpecModeKind { kind: spec_class_letter(n - 1), modes: pieces[n - 1] }),
            ]);
            assert(forall|i: int| 0 <= i < prev.len() ==> cur[i] == prev[i]);
            assert(cur[prev.len() as int].kind as u32 == 65 + n - 1);
        } else {
            assert(cur == prev);
        }
    }
}

} // verus!
