//! The capability table: at most one current value per recognized kind,
//! last write wins, built incrementally as `Operation`s arrive. Accessors
//! verify at read time that a stored value's tag agrees with its key and
//! fall back to the protocol default when it does not ("corruption"), so a
//! bad entry can never be fatal.

use vstd::prelude::*;
use vstd::string::*;
use crate::casemap::CaseMap;
use crate::param::{
    Kind, ModeKind, Parameter, PrefixMap, SpecModeKind, SpecParameter, spec_param_kind,
};
use crate::parse::{Operation, SpecOperation, remove_kind, spec_remove_kind};
use crate::text::str_eq;

verus! {

pub const NUM_KINDS: usize = 26;

pub open spec fn spec_kind_index(k: Kind) -> int {
    match k {
        Kind::AWAYLEN => 0,
        Kind::CASEMAPPING => 1,
        Kind::CHANLIMIT => 2,
        Kind::CHANMODES => 3,
        Kind::CHANNELLEN => 4,
        Kind::CHANTYPES => 5,
        Kind::CHATHISTORY => 6,
        Kind::CNOTICE => 7,
        Kind::CPRIVMSG => 8,
        Kind::ELIST => 9,
        Kind::KEYLEN => 10,
        Kind::KICKLEN => 11,
        Kind::KNOCK => 12,
        Kind::MODES => 13,
        Kind::MONITOR => 14,
        Kind::MSGREFTYPES => 15,
        Kind::NAMELEN => 16,
        Kind::NICKLEN => 17,
        Kind::PREFIX => 18,
        Kind::SAFELIST => 19,
        Kind::STATUSMSG => 20,
        Kind::TARGMAX => 21,
        Kind::TOPICLEN => 22,
        Kind::USERIP => 23,
        Kind::UTF8ONLY => 24,
        Kind::WHOX => 25,
    }
}

fn kind_index(k: Kind) -> (i: usize)
    ensures
        i == spec_kind_index(k),
        i < NUM_KINDS,
{
    match k {
        Kind::AWAYLEN => 0,
        Kind::CASEMAPPING => 1,
        Kind::CHANLIMIT => 2,
        Kind::CHANMODES => 3,
        Kind::CHANNELLEN => 4,
        Kind::CHANTYPES => 5,
        Kind::CHATHISTORY => 6,
        Kind::CNOTICE => 7,
        Kind::CPRIVMSG => 8,
        Kind::ELIST => 9,
        Kind::KEYLEN => 10,
        Kind::KICKLEN => 11,
        Kind::KNOCK => 12,
        Kind::MODES => 13,
        Kind::MONITOR => 14,
        Kind::MSGREFTYPES => 15,
        Kind::NAMELEN => 16,
        Kind::NICKLEN => 17,
        Kind::PREFIX => 18,
        Kind::SAFELIST => 19,
        Kind::STATUSMSG => 20,
        Kind::TARGMAX => 21,
        Kind::TOPICLEN => 22,
        Kind::USERIP => 23,
        Kind::UTF8ONLY => 24,
        Kind::WHOX => 25,
    }
}

proof fn lemma_kind_index_injective()
    ensures
        forall|k1: Kind, k2: Kind| spec_kind_index(k1) == spec_kind_index(k2) ==> k1 == k2,
{
}

/// The capability table, modelled as a map from kind to stored parameter.
pub struct CapabilityTable {
    entries: Vec<Option<Parameter>>,
}

impl View for CapabilityTable {
    type V = Map<Kind, SpecParameter>;

    closed spec fn view(&self) -> Map<Kind, SpecParameter> {
        Map::new(
            |k: Kind| self.entries@[spec_kind_index(k)] is Some,
            |k: Kind| self.entries@[spec_kind_index(k)]->Some_0@,
        )
    }
}

/// What applying one operation does to the table: an addition whose payload
/// has a kind overwrites that entry, a removal of a mapped name erases that
/// entry, and anything else leaves the table unchanged.
pub open spec fn spec_apply(m: Map<Kind, SpecParameter>, op: SpecOperation) -> Map<
    Kind,
    SpecParameter,
> {
    match op {
        SpecOperation::Add(p) => match spec_param_kind(p) {
            Some(k) => m.insert(k, p),
            None => m,
        },
        SpecOperation::Remove(name) => match spec_remove_kind(name) {
            Some(k) => m.remove(k),
            None => m,
        },
    }
}

impl CapabilityTable {
    #[verifier::type_invariant]
    closed spec fn wf(self) -> bool {
        self.entries@.len() == NUM_KINDS
    }

    /// An empty table: nothing has been advertised yet.
    pub fn new() -> (r: Self)
        ensures
            r@ == Map::<Kind, SpecParameter>::empty(),
    {
        let mut entries: Vec<Option<Parameter>> = Vec::new();
        while entries.len() < NUM_KINDS
            invariant
                forall|j: int| 0 <= j < entries@.len() ==> entries@[j] is None,
                entries@.len() <= NUM_KINDS,
            decreases NUM_KINDS - entries.len(),
        {
            entries.push(None);
        }
        let r = CapabilityTable { entries };
        proof {
            assert(r@ =~= Map::<Kind, SpecParameter>::empty());
        }
        r
    }

    /// Applies one parsed operation; the whole token's effect is atomic.
    pub fn apply(&mut self, op: Operation)
        ensures
            final(self)@ == spec_apply(old(self)@, op@),
    {
        proof {
            use_type_invariant(&*self);
            lemma_kind_index_injective();
        }
        match op {
            Operation::Add(p) => {
                match p.kind() {
                    Some(k) => {
                        let i = kind_index(k);
                        let ghost pv = p@;
                        self.entries[i] = Some(p);
                        proof {
                            assert(self@ =~= old(self)@.insert(k, pv));
                        }
                    },
                    None => {
                        proof {
                            assert(self@ =~= old(self)@);
                        }
                    },
                }
            },
            Operation::Remove(name) => {
                match remove_kind(name.as_str()) {
                    Some(k) => {
                        let i = kind_index(k);
                        self.entries[i] = None;
                        proof {
                            assert(self@ =~= old(self)@.remove(k));
                        }
                    },
                    None => {
                        proof {
                            assert(self@ =~= old(self)@);
                        }
                    },
                }
            },
        }
    }

    /// The stored parameter for a kind, if one is present.
    pub fn get(&self, kind: Kind) -> (r: Option<&Parameter>)
        ensures
            match r {
                Some(p) => self@.contains_key(kind) && p@ == self@[kind],
                None => !self@.contains_key(kind),
            },
    {
        proof {
            use_type_invariant(&*self);
        }
        let i = kind_index(kind);
        match &self.entries[i] {
            Some(p) => Some(p),
            None => None,
        }
    }
}

// ---- the laws of the table ----

/// Adding a payload and then removing the matching name leaves the table
/// without that key.
pub proof fn lemma_add_then_remove(
    m: Map<Kind, SpecParameter>,
    p: SpecParameter,
    name: Seq<char>,
    k: Kind,
)
    requires
        spec_param_kind(p) == Some(k),
        spec_remove_kind(name) == Some(k),
    ensures
        !spec_apply(spec_apply(m, SpecOperation::Add(p)), SpecOperation::Remove(
            name,
        )).contains_key(k),
{
}

/// Removing a name outside the fixed name table changes nothing.
pub proof fn lemma_remove_unmapped_is_noop(m: Map<Kind, SpecParameter>, name: Seq<char>)
    requires
        spec_remove_kind(name) is None,
    ensures
        spec_apply(m, SpecOperation::Remove(name)) == m,
{
}


// ---- defaults and derived accessors ----

fn copy_vec<T: Copy>(v: &Vec<T>) -> (r: Vec<T>)
    ensures
        r@ == v@,
{
    let mut out: Vec<T> = Vec::new();
    let mut j: usize = 0;
    while j < v.len()
        invariant
            0 <= j <= v@.len(),
            out@ == v@.take(j as int),
        decreases v@.len() - j,
    {
        out.push(v[j]);
        proof {
            assert(v@.take(j + 1) =~= v@.take(j as int).push(v@[j as int]));
        }
        j += 1;
    }
    proof {
        assert(v@.take(v@.len() as int) =~= v@);
    }
    out
}

fn clone_mode_kinds(v: &Vec<ModeKind>) -> (r: Vec<ModeKind>)
    ensures
        r@ == v@,
{
    let mut out: Vec<ModeKind> = Vec::new();
    let mut j: usize = 0;
    while j < v.len()
        invariant
            0 <= j <= v@.len(),
            out@ == v@.take(j as int),
        decreases v@.len() - j,
    {
        let m = &v[j];
        out.push(ModeKind { kind: m.kind, modes: m.modes.clone() });
        proof {
            assert(v@.take(j + 1) =~= v@.take(j as int).push(v@[j as int]));
        }
        j += 1;
    }
    proof {
        assert(v@.take(v@.len() as int) =~= v@);
    }
    out
}

/// The protocol-default channel-mode classification:
/// A = beI, B = k, C = l, D = imstn.
/// Reference: <https://modern.ircdocs.horse/#channel-modes>
pub open spec fn spec_default_chanmodes() -> Seq<SpecModeKind> {
    seq![
        (SpecModeKind { kind: 'A', modes: "beI"@ }),
        (SpecModeKind { kind: 'B', modes: "k"@ }),
        (SpecModeKind { kind: 'C', modes: "l"@ }),
        (SpecModeKind { kind: 'D', modes: "imstn"@ }),
    ]
}

pub fn default_chanmodes() -> (r: Vec<ModeKind>)
    ensures
        r@.map_values(|m: ModeKind| m@) == spec_default_chanmodes(),
{
    let mut v: Vec<ModeKind> = Vec::new();
    v.push(ModeKind { kind: 'A', modes: String::from_str("beI") });
    v.push(ModeKind { kind: 'B', modes: String::from_str("k") });
    v.push(ModeKind { kind: 'C', modes: String::from_str("l") });
    v.push(ModeKind { kind: 'D', modes: String::from_str("imstn") });
    proof {
        assert(v@.map_values(|m: ModeKind| m@) =~= spec_default_chanmodes());
    }
    v
}

/// The protocol-default membership prefixes, in descending privilege rank:
/// founder `~q`, protected `&a`, operator `@o`, half-operator `%h`,
/// voice `+v`.
/// Reference: <https://modern.ircdocs.horse/#channel-membership-prefixes>
pub open spec fn spec_default_prefix() -> Seq<PrefixMap> {
    seq![
        (PrefixMap { prefix: '~', mode: 'q' }),
        (PrefixMap { prefix: '&', mode: 'a' }),
        (PrefixMap { prefix: '@', mode: 'o' }),
        (PrefixMap { prefix: '%', mode: 'h' }),
        (PrefixMap { prefix: '+', mode: 'v' }),
    ]
}

pub fn default_prefix() -> (r: Vec<PrefixMap>)
    ensures
        r@ == spec_default_prefix(),
{
    let mut v: Vec<PrefixMap> = Vec::new();
    v.push(PrefixMap { prefix: '~', mode: 'q' });
    v.push(PrefixMap { prefix: '&', mode: 'a' });
    v.push(PrefixMap { prefix: '@', mode: 'o' });
    v.push(PrefixMap { prefix: '%', mode: 'h' });
    v.push(PrefixMap { prefix: '+', mode: 'v' });
    proof {
        assert(v@ =~= spec_default_prefix());
    }
    v
}

/// The protocol-default channel-type prefixes `#` and `&`.
pub open spec fn spec_default_chantypes() -> Seq<char> {
    seq!['#', '&']
}

// TARGMAX: the first entry for the command decides; its absent limit, an
// absent entry and an absent capability all mean "no limit".
pub open spec fn spec_find_limit(
    limits: Seq<crate::param::SpecCommandTargetLimit>,
    command: Seq<char>,
) -> Option<u16>
    decreases limits.len(),
{
    if limits.len() == 0 {
        None
    } else if limits[0].command == command {
        limits[0].limit
    } else {
        spec_find_limit(limits.skip(1), command)
    }
}

pub open spec fn spec_find_target_limit(m: Map<Kind, SpecParameter>, command: Seq<char>) -> Option<
    u16,
> {
    if m.contains_key(Kind::TARGMAX) {
        match m[Kind::TARGMAX] {
            SpecParameter::TARGMAX(limits) => spec_find_limit(limits, command),
            _ => None,
        }
    } else {
        None
    }
}

/// The advertised target limit for a command. Absence of the entry and
/// absence of the whole capability are treated alike as "no limit".
pub fn find_target_limit(isupport: &CapabilityTable, command: &str) -> (r: Option<u16>)
    ensures
        r == spec_find_target_limit(isupport@, command@),
{
    match isupport.get(Kind::TARGMAX) {
        Some(p) => match p {
            Parameter::TARGMAX(limits) => {
                let ghost lv = limits@.map_values(|t: crate::param::CommandTargetLimit| t@);
                let mut j: usize = 0;
                proof {
                    assert(lv.skip(0) =~= lv);
                    assert(p@ matches SpecParameter::TARGMAX(sl) && sl =~= lv);
                    assert(spec_find_target_limit(isupport@, command@) == spec_find_limit(
                        lv,
                        command@,
                    ));
                }
                while j < limits.len()
                    invariant
                        lv == limits@.map_values(|t: crate::param::CommandTargetLimit| t@),
                        0 <= j <= limits@.len(),
                        spec_find_target_limit(isupport@, command@) == spec_find_limit(
                            lv.skip(j as int),
                            command@,
                        ),
                    decreases limits@.len() - j,
                {
                    let entry = &limits[j];
                    proof {
                        assert(lv[j as int] == limits@[j as int]@);
                        assert(lv.skip(j as int)[0] == lv[j as int]);
                        assert(lv.skip(j as int).len() == lv.len() - j);
                    }
                    if str_eq(entry.command.as_str(), command) {
                        return entry.limit;
                    }
                    proof {
                        assert(lv.skip(j as int).skip(1) =~= lv.skip(j + 1));
                    }
                    j += 1;
                }
                proof {
                    assert(lv.skip(limits@.len() as int).len() == 0);
                }
                None
            },
            _ => None,
        },
        None => None,
    }
}

pub open spec fn spec_casemapping_or_default(m: Map<Kind, SpecParameter>) -> CaseMap {
    if m.contains_key(Kind::CASEMAPPING) {
        match m[Kind::CASEMAPPING] {
            SpecParameter::CASEMAPPING(cm) => cm,
            _ => CaseMap::RFC7613,
        }
    } else {
        CaseMap::RFC7613
    }
}

/// The advertised casemapping, or the protocol default `RFC7613`.
pub fn get_casemapping_or_default(isupport: &CapabilityTable) -> (r: CaseMap)
    ensures
        r == spec_casemapping_or_default(isupport@),
{
    match isupport.get(Kind::CASEMAPPING) {
        Some(p) => match p {
            Parameter::CASEMAPPING(cm) => *cm,
            _ => CaseMap::default(),
        },
        None => CaseMap::default(),
    }
}

pub open spec fn spec_chanmodes_or_default(m: Map<Kind, SpecParameter>) -> Seq<SpecModeKind> {
    if m.contains_key(Kind::CHANMODES) {
        match m[Kind::CHANMODES] {
            SpecParameter::CHANMODES(modes) => modes,
            _ => spec_default_chanmodes(),
        }
    } else {
        spec_default_chanmodes()
    }
}

/// The advertised channel-mode classes, or the protocol default; a stored
/// value whose tag disagrees with the key falls back to the default.
/// Reference: <https://modern.ircdocs.horse/#chanmodes-parameter>
pub fn get_chanmodes_or_default(isupport: &CapabilityTable) -> (r: Vec<ModeKind>)
    ensures
        r@.map_values(|m: ModeKind| m@) == spec_chanmodes_or_default(isupport@),
{
    match isupport.get(Kind::CHANMODES) {
        Some(p) => match p {
            Parameter::CHANMODES(modes) => clone_mode_kinds(modes),
            _ => default_chanmodes(),
        },
        None => default_chanmodes(),
    }
}

pub open spec fn spec_chantypes_or_default(m: Map<Kind, SpecParameter>) -> Seq<char> {
    if m.contains_key(Kind::CHANTYPES) {
        match m[Kind::CHANTYPES] {
            SpecParameter::CHANTYPES(Some(types)) => types,
            _ => spec_default_chantypes(),
        }
    } else {
        spec_default_chantypes()
    }
}

/// The advertised channel-type prefixes, or the default `#` and `&`.
pub fn get_chantypes_or_default(isupport: &CapabilityTable) -> (r: Vec<char>)
    ensures
        r@ == spec_chantypes_or_default(isupport@),
{
    match isupport.get(Kind::CHANTYPES) {
        Some(p) => match p {
            Parameter::CHANTYPES(Some(types)) => copy_vec(types),
            _ => default_chantypes(),
        },
        None => default_chantypes(),
    }
}

fn default_chantypes() -> (r: Vec<char>)
    ensures
        r@ == spec_default_chantypes(),
{
    let mut v: Vec<char> = Vec::new();
    v.push('#');
    v.push('&');
    proof {
        assert(v@ =~= spec_default_chantypes());
    }
    v
}

pub open spec fn spec_mode_limit_or_default(m: Map<Kind, SpecParameter>) -> Option<u16> {
    if m.contains_key(Kind::MODES) {
        match m[Kind::MODES] {
            SpecParameter::MODES(limit) => limit,
            _ => Some(3u16),
        }
    } else {
        Some(3u16)
    }
}

/// The advertised limit of simultaneous mode changes, or the protocol
/// default of 3; an advertised absent value means unlimited.
/// Reference: <https://modern.ircdocs.horse/#modes-parameter>
pub fn get_mode_limit_or_default(isupport: &CapabilityTable) -> (r: Option<u16>)
    ensures
        r == spec_mode_limit_or_default(isupport@),
{
    match isupport.get(Kind::MODES) {
        Some(p) => match p {
            Parameter::MODES(limit) => *limit,
            _ => Some(3),
        },
        None => Some(3),
    }
}

pub open spec fn spec_prefix(m: Map<Kind, SpecParameter>) -> Option<Seq<PrefixMap>> {
    if m.contains_key(Kind::PREFIX) {
        match m[Kind::PREFIX] {
            SpecParameter::PREFIX(prefix) => Some(prefix),
            _ => None,
        }
    } else {
        None
    }
}

/// The advertised membership prefixes, if stored with the right tag.
pub fn get_prefix(isupport: &CapabilityTable) -> (r: Option<Vec<PrefixMap>>)
    ensures
        match r {
            Some(v) => spec_prefix(isupport@) == Some(v@),
            None => spec_prefix(isupport@) is None,
        },
{
    match isupport.get(Kind::PREFIX) {
        Some(p) => match p {
            Parameter::PREFIX(prefix) => Some(copy_vec(prefix)),
            _ => None,
        },
        None => None,
    }
}

/// The advertised membership prefixes, or the protocol default ranking.
pub fn get_prefix_or_default(isupport: &CapabilityTable) -> (r: Vec<PrefixMap>)
    ensures
        r@ == match spec_prefix(isupport@) {
            Some(v) => v,
            None => spec_default_prefix(),
        },
{
    match get_prefix(isupport) {
        Some(v) => v,
        None => default_prefix(),
    }
}

pub open spec fn spec_statusmsg_or_default(m: Map<Kind, SpecParameter>) -> Seq<char> {
    if m.contains_key(Kind::STATUSMSG) {
        match m[Kind::STATUSMSG] {
            SpecParameter::STATUSMSG(prefixes) => prefixes,
            _ => Seq::empty(),
        }
    } else {
        Seq::empty()
    }
}

/// The advertised status-message prefixes; the default is the empty set.
pub fn get_statusmsg_or_default(isupport: &CapabilityTable) -> (r: Vec<char>)
    ensures
        r@ == spec_statusmsg_or_default(isupport@),
{
    match isupport.get(Kind::STATUSMSG) {
        Some(p) => match p {
            Parameter::STATUSMSG(prefixes) => copy_vec(prefixes),
            _ => Vec::new(),
        },
        None => Vec::new(),
    }
}


} // verus!
