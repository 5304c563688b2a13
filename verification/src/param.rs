//! The typed payloads of recognized `ISUPPORT` parameters, their
//! mathematical models, and the closed key space of the capability table.
//!
//! Parameter references:
//! - <https://defs.ircdocs.horse/defs/isupport.html>
//! - <https://modern.ircdocs.horse/#rplisupport-005>
//! - <https://ircv3.net/specs/extensions/chathistory>
//! - <https://ircv3.net/specs/extensions/whox>

use vstd::prelude::*;
use crate::casemap::CaseMap;

verus! {

/// The keys under which a parsed parameter may be stored in the capability
/// table. Parameters that are validated but never persisted have no `Kind`.
#[allow(non_camel_case_types)]
#[derive(Clone, Copy, Debug, Eq, Hash, PartialEq, Structural)]
pub enum Kind {
    AWAYLEN,
    CASEMAPPING,
    CHANLIMIT,
    CHANMODES,
    CHANNELLEN,
    CHANTYPES,
    CHATHISTORY,
    CNOTICE,
    CPRIVMSG,
    ELIST,
    KEYLEN,
    KICKLEN,
    KNOCK,
    MODES,
    MONITOR,
    MSGREFTYPES,
    NAMELEN,
    NICKLEN,
    PREFIX,
    SAFELIST,
    STATUSMSG,
    TARGMAX,
    TOPICLEN,
    USERIP,
    UTF8ONLY,
    WHOX,
}

/// One channel prefix together with the advertised limit of channels of
/// that prefix one may join; `None` means unlimited.
#[derive(Clone, Copy, Debug, Eq, PartialEq, Structural)]
pub struct ChannelLimit {
    pub prefix: char,
    pub limit: Option<u16>,
}

/// One class of channel modes: the class letter and the mode characters in
/// that class. Reference:
/// <https://datatracker.ietf.org/doc/html/draft-hardy-irc-isupport-00#section-4.3>
#[derive(Clone, Debug, PartialEq)]
pub struct ModeKind {
    pub kind: char,
    pub modes: String,
}

pub struct SpecModeKind {
    pub kind: char,
    pub modes: Seq<char>,
}

impl View for ModeKind {
    type V = SpecModeKind;

    open spec fn view(&self) -> SpecModeKind {
        SpecModeKind { kind: self.kind, modes: self.modes@ }
    }
}

impl ModeKind {
    /// What the class letter means for arguments to mode changes.
    pub fn description(&self) -> (r: &'static str)
        ensures
            r@ == self.spec_description(),
    {
        match self.kind {
            'A' => "requires argument to modify & no argument to query",
            'B' => "requires argument",
            'C' => "requires argument to set & no argument to clear",
            'D' => "requires no argument",
            _ => "unknown mode type",
        }
    }

    pub open spec fn spec_description(&self) -> Seq<char> {
        match self.kind {
            'A' => "requires argument to modify & no argument to query"@,
            'B' => "requires argument"@,
            'C' => "requires argument to set & no argument to clear"@,
            'D' => "requires no argument"@,
            _ => "unknown mode type"@,
        }
    }
}

/// A client-only tag denial: `*` denies all, `-name` allows one
/// explicitly, a bare name denies one explicitly.
#[derive(Clone, Debug, PartialEq)]
pub enum ClientOnlyTags {
    Allowed(String),
    Denied(String),
    DenyAll,
}

pub enum SpecClientOnlyTags {
    Allowed(Seq<char>),
    Denied(Seq<char>),
    DenyAll,
}

impl View for ClientOnlyTags {
    type V = SpecClientOnlyTags;

    open spec fn view(&self) -> SpecClientOnlyTags {
        match self {
            ClientOnlyTags::Allowed(s) => SpecClientOnlyTags::Allowed(s@),
            ClientOnlyTags::Denied(s) => SpecClientOnlyTags::Denied(s@),
            ClientOnlyTags::DenyAll => SpecClientOnlyTags::DenyAll,
        }
    }
}

/// The maximum number of targets one command may address; `None` means
/// unlimited.
#[derive(Clone, Debug, PartialEq)]
pub struct CommandTargetLimit {
    pub command: String,
    pub limit: Option<u16>,
}

pub struct SpecCommandTargetLimit {
    pub command: Seq<char>,
    pub limit: Option<u16>,
}

impl View for CommandTargetLimit {
    type V = SpecCommandTargetLimit;

    open spec fn view(&self) -> SpecCommandTargetLimit {
        SpecCommandTargetLimit { command: self.command@, limit: self.limit }
    }
}

/// How a message may be referenced in history requests.
#[derive(Clone, Copy, Debug, Eq, PartialEq, Structural)]
pub enum MessageReferenceType {
    Timestamp,
    MessageId,
}

/// The maximum number of list-mode entries of the given mode letters.
#[derive(Clone, Debug, PartialEq)]
pub struct ModesLimit {
    pub modes: String,
    pub limit: u16,
}

pub struct SpecModesLimit {
    pub modes: Seq<char>,
    pub limit: u16,
}

impl View for ModesLimit {
    type V = SpecModesLimit;

    open spec fn view(&self) -> SpecModesLimit {
        SpecModesLimit { modes: self.modes@, limit: self.limit }
    }
}

/// One membership prefix symbol and the channel mode letter it stands for.
#[derive(Clone, Copy, Debug, Eq, PartialEq, Structural)]
pub struct PrefixMap {
    pub prefix: char,
    pub mode: char,
}

/// The validated payload of one recognized `ISUPPORT` parameter.
#[allow(non_camel_case_types)]
#[derive(Clone, Debug, PartialEq)]
pub enum Parameter {
    ACCEPT(u16),
    ACCOUNTEXTBAN(Vec<String>),
    AWAYLEN(u16),
    BOT(char),
    CALLERID(char),
    CASEMAPPING(CaseMap),
    CHANLIMIT(Vec<ChannelLimit>),
    CHANMODES(Vec<ModeKind>),
    CHANNELLEN(u16),
    CHANTYPES(Option<Vec<char>>),
    CHATHISTORY(u16),
    CLIENTTAGDENY(Vec<ClientOnlyTags>),
    CLIENTVER(u16, u16),
    CNOTICE,
    CPRIVMSG,
    DEAF(char),
    ELIST(String),
    ESILENCE(Option<String>),
    ETRACE,
    EXCEPTS(char),
    EXTBAN(Option<char>, String),
    FNC,
    HOSTLEN(u16),
    INVEX(char),
    KEYLEN(u16),
    KICKLEN(u16),
    KNOCK,
    LINELEN(u16),
    MAP,
    MAXBANS(u16),
    MAXCHANNELS(u16),
    MAXLIST(Vec<ModesLimit>),
    MAXPARA(u16),
    MAXTARGETS(Option<u16>),
    METADATA(Option<u16>),
    MODES(Option<u16>),
    MONITOR(Option<u16>),
    MSGREFTYPES(Vec<MessageReferenceType>),
    NAMELEN(u16),
    NAMESX,
    NETWORK(String),
    NICKLEN(u16),
    OVERRIDE,
    PREFIX(Vec<PrefixMap>),
    SAFELIST,
    SECURELIST,
    SILENCE(Option<u16>),
    STATUSMSG(Vec<char>),
    TARGMAX(Vec<CommandTargetLimit>),
    TOPICLEN(u16),
    UHNAMES,
    USERIP,
    USERLEN(u16),
    UTF8ONLY,
    VLIST(String),
    WATCH(u16),
    WHOX,
}

/// The mathematical model of a `Parameter`: the same tagged union over
/// sequences and plain values.
#[allow(non_camel_case_types)]
pub enum SpecParameter {
    ACCEPT(u16),
    ACCOUNTEXTBAN(Seq<Seq<char>>),
    AWAYLEN(u16),
    BOT(char),
    CALLERID(char),
    CASEMAPPING(CaseMap),
    CHANLIMIT(Seq<ChannelLimit>),
    CHANMODES(Seq<SpecModeKind>),
    CHANNELLEN(u16),
    CHANTYPES(Option<Seq<char>>),
    CHATHISTORY(u16),
    CLIENTTAGDENY(Seq<SpecClientOnlyTags>),
    CLIENTVER(u16, u16),
    CNOTICE,
    CPRIVMSG,
    DEAF(char),
    ELIST(Seq<char>),
    ESILENCE(Option<Seq<char>>),
    ETRACE,
    EXCEPTS(char),
    EXTBAN(Option<char>, Seq<char>),
    FNC,
    HOSTLEN(u16),
    INVEX(char),
    KEYLEN(u16),
    KICKLEN(u16),
    KNOCK,
    LINELEN(u16),
    MAP,
    MAXBANS(u16),
    MAXCHANNELS(u16),
    MAXLIST(Seq<SpecModesLimit>),
    MAXPARA(u16),
    MAXTARGETS(Option<u16>),
    METADATA(Option<u16>),
    MODES(Option<u16>),
    MONITOR(Option<u16>),
    MSGREFTYPES(Seq<MessageReferenceType>),
    NAMELEN(u16),
    NAMESX,
    NETWORK(Seq<char>),
    NICKLEN(u16),
    OVERRIDE,
    PREFIX(Seq<PrefixMap>),
    SAFELIST,
    SECURELIST,
    SILENCE(Option<u16>),
    STATUSMSG(Seq<char>),
    TARGMAX(Seq<SpecCommandTargetLimit>),
    TOPICLEN(u16),
    UHNAMES,
    USERIP,
    USERLEN(u16),
    UTF8ONLY,
    VLIST(Seq<char>),
    WATCH(u16),
    WHOX,
}

impl View for Parameter {
    type V = SpecParameter;

    open spec fn view(&self) -> SpecParameter {
        match self {
            Parameter::ACCEPT(n) => SpecParameter::ACCEPT(*n),
            Parameter::ACCOUNTEXTBAN(v) => SpecParameter::ACCOUNTEXTBAN(
                v@.map_values(|s: String| s@),
            ),
            Parameter::AWAYLEN(n) => SpecParameter::AWAYLEN(*n),
            Parameter::BOT(c) => SpecParameter::BOT(*c),
            Parameter::CALLERID(c) => SpecParameter::CALLERID(*c),
            Parameter::CASEMAPPING(cm) => SpecParameter::CASEMAPPING(*cm),
            Parameter::CHANLIMIT(v) => SpecParameter::CHANLIMIT(v@),
            Parameter::CHANMODES(v) => SpecParameter::CHANMODES(
                v@.map_values(|m: ModeKind| m@),
            ),
            Parameter::CHANNELLEN(n) => SpecParameter::CHANNELLEN(*n),
            Parameter::CHANTYPES(o) => SpecParameter::CHANTYPES(
                match o {
                    Some(v) => Some(v@),
                    None => None,
                },
            ),
            Parameter::CHATHISTORY(n) => SpecParameter::CHATHISTORY(*n),
            Parameter::CLIENTTAGDENY(v) => SpecParameter::CLIENTTAGDENY(
                v@.map_values(|t: ClientOnlyTags| t@),
            ),
            Parameter::CLIENTVER(a, b) => SpecParameter::CLIENTVER(*a, *b),
            Parameter::CNOTICE => SpecParameter::CNOTICE,
            Parameter::CPRIVMSG => SpecParameter::CPRIVMSG,
            Parameter::DEAF(c) => SpecParameter::DEAF(*c),
            Parameter::ELIST(s) => SpecParameter::ELIST(s@),
            Parameter::ESILENCE(o) => SpecParameter::ESILENCE(
                match o {
                    Some(s) => Some(s@),
                    None => None,
                },
            ),
            Parameter::ETRACE => SpecParameter::ETRACE,
            Parameter::EXCEPTS(c) => SpecParameter::EXCEPTS(*c),
            Parameter::EXTBAN(p, t) => SpecParameter::EXTBAN(*p, t@),
            Parameter::FNC => SpecParameter::FNC,
            Parameter::HOSTLEN(n) => SpecParameter::HOSTLEN(*n),
            Parameter::INVEX(c) => SpecParameter::INVEX(*c),
            Parameter::KEYLEN(n) => SpecParameter::KEYLEN(*n),
            Parameter::KICKLEN(n) => SpecParameter::KICKLEN(*n),
            Parameter::KNOCK => SpecParameter::KNOCK,
            Parameter::LINELEN(n) => SpecParameter::LINELEN(*n),
            Parameter::MAP => SpecParameter::MAP,
            Parameter::MAXBANS(n) => SpecParameter::MAXBANS(*n),
            Parameter::MAXCHANNELS(n) => SpecParameter::MAXCHANNELS(*n),
            Parameter::MAXLIST(v) => SpecParameter::MAXLIST(
                v@.map_values(|m: ModesLimit| m@),
            ),
            Parameter::MAXPARA(n) => SpecParameter::MAXPARA(*n),
            Parameter::MAXTARGETS(o) => SpecParameter::MAXTARGETS(*o),
            Parameter::METADATA(o) => SpecParameter::METADATA(*o),
            Parameter::MODES(o) => SpecParameter::MODES(*o),
            Parameter::MONITOR(o) => SpecParameter::MONITOR(*o),
            Parameter::MSGREFTYPES(v) => SpecParameter::MSGREFTYPES(v@),
            Parameter::NAMELEN(n) => SpecParameter::NAMELEN(*n),
            Parameter::NAMESX => SpecParameter::NAMESX,
            Parameter::NETWORK(s) => SpecParameter::NETWORK(s@),
            Parameter::NICKLEN(n) => SpecParameter::NICKLEN(*n),
            Parameter::OVERRIDE => SpecParameter::OVERRIDE,
            Parameter::PREFIX(v) => SpecParameter::PREFIX(v@),
            Parameter::SAFELIST => SpecParameter::SAFELIST,
            Parameter::SECURELIST => SpecParameter::SECURELIST,
            Parameter::SILENCE(o) => SpecParameter::SILENCE(*o),
            Parameter::STATUSMSG(v) => SpecParameter::STATUSMSG(v@),
            Parameter::TARGMAX(v) => SpecParameter::TARGMAX(
                v@.map_values(|t: CommandTargetLimit| t@),
            ),
            Parameter::TOPICLEN(n) => SpecParameter::TOPICLEN(*n),
            Parameter::UHNAMES => SpecParameter::UHNAMES,
            Parameter::USERIP => SpecParameter::USERIP,
            Parameter::USERLEN(n) => SpecParameter::USERLEN(*n),
            Parameter::UTF8ONLY => SpecParameter::UTF8ONLY,
            Parameter::VLIST(s) => SpecParameter::VLIST(s@),
            Parameter::WATCH(n) => SpecParameter::WATCH(*n),
            Parameter::WHOX => SpecParameter::WHOX,
        }
    }
}

/// The table key of a parameter, if it has one. Parameters without a key
/// are parsed for validation only and never persisted.
pub open spec fn spec_param_kind(p: SpecParameter) -> Option<Kind> {
    match p {
        SpecParameter::AWAYLEN(_) => Some(Kind::AWAYLEN),
        SpecParameter::CASEMAPPING(_) => Some(Kind::CASEMAPPING),
        SpecParameter::CHANLIMIT(_) => Some(Kind::CHANLIMIT),
        SpecParameter::CHANMODES(_) => Some(Kind::CHANMODES),
        SpecParameter::CHANNELLEN(_) => Some(Kind::CHANNELLEN),
        SpecParameter::CHANTYPES(_) => Some(Kind::CHANTYPES),
        SpecParameter::CHATHISTORY(_) => Some(Kind::CHATHISTORY),
        SpecParameter::CNOTICE => Some(Kind::CNOTICE),
        SpecParameter::CPRIVMSG => Some(Kind::CPRIVMSG),
        SpecParameter::ELIST(_) => Some(Kind::ELIST),
        SpecParameter::KEYLEN(_) => Some(Kind::KEYLEN),
        SpecParameter::KICKLEN(_) => Some(Kind::KICKLEN),
        SpecParameter::KNOCK => Some(Kind::KNOCK),
        SpecParameter::MODES(_) => Some(Kind::MODES),
        SpecParameter::MONITOR(_) => Some(Kind::MONITOR),
        SpecParameter::MSGREFTYPES(_) => Some(Kind::MSGREFTYPES),
        SpecParameter::NAMELEN(_) => Some(Kind::NAMELEN),
        SpecParameter::NICKLEN(_) => Some(Kind::NICKLEN),
        SpecParameter::PREFIX(_) => Some(Kind::PREFIX),
        SpecParameter::SAFELIST => Some(Kind::SAFELIST),
        SpecParameter::STATUSMSG(_) => Some(Kind::STATUSMSG),
        SpecParameter::TARGMAX(_) => Some(Kind::TARGMAX),
        SpecParameter::TOPICLEN(_) => Some(Kind::TOPICLEN),
        SpecParameter::USERIP => Some(Kind::USERIP),
        SpecParameter::UTF8ONLY => Some(Kind::UTF8ONLY),
        SpecParameter::WHOX => Some(Kind::WHOX),
        _ => None,
    }
}

impl Parameter {
    /// The table key under which this parameter is stored, if any.
    pub fn kind(&self) -> (r: Option<Kind>)
        ensures
            r == spec_param_kind(self@),
    {
        match self {
            Parameter::AWAYLEN(_) => Some(Kind::AWAYLEN),
            Parameter::CASEMAPPING(_) => Some(Kind::CASEMAPPING),
            Parameter::CHANLIMIT(_) => Some(Kind::CHANLIMIT),
            Parameter::CHANMODES(_) => Some(Kind::CHANMODES),
            Parameter::CHANNELLEN(_) => Some(Kind::CHANNELLEN),
            Parameter::CHANTYPES(_) => Some(Kind::CHANTYPES),
            Parameter::CHATHISTORY(_) => Some(Kind::CHATHISTORY),
            Parameter::CNOTICE => Some(Kind::CNOTICE),
            Parameter::CPRIVMSG => Some(Kind::CPRIVMSG),
            Parameter::ELIST(_) => Some(Kind::ELIST),
            Parameter::KEYLEN(_) => Some(Kind::KEYLEN),
            Parameter::KICKLEN(_) => Some(Kind::KICKLEN),
            Parameter::KNOCK => Some(Kind::KNOCK),
            Parameter::MODES(_) => Some(Kind::MODES),
            Parameter::MONITOR(_) => Some(Kind::MONITOR),
            Parameter::MSGREFTYPES(_) => Some(Kind::MSGREFTYPES),
            Parameter::NAMELEN(_) => Some(Kind::NAMELEN),
            Parameter::NICKLEN(_) => Some(Kind::NICKLEN),
            Parameter::PREFIX(_) => Some(Kind::PREFIX),
            Parameter::SAFELIST => Some(Kind::SAFELIST),
            Parameter::STATUSMSG(_) => Some(Kind::STATUSMSG),
            Parameter::TARGMAX(_) => Some(Kind::TARGMAX),
            Parameter::TOPICLEN(_) => Some(Kind::TOPICLEN),
            Parameter::USERIP => Some(Kind::USERIP),
            Parameter::UTF8ONLY => Some(Kind::UTF8ONLY),
            Parameter::WHOX => Some(Kind::WHOX),
            _ => None,
        }
    }
}

} // verus!
