use isupport::{
    CapabilityTable, CaseMap, ChannelLimit, ChatHistoryState, ChatHistorySubcommand, ClientOnlyTags,
    CommandTargetLimit, ErrorReason, Kind, MessageReference, MessageReferenceType, ModesLimit,
    Operation, Parameter, PrefixMap, WhoToken, WhoXPollParameters, find_target_limit,
    fuzz_end_message_reference, fuzz_message_reference_range, fuzz_start_message_reference,
    get_casemapping_or_default, get_chanmodes_or_default, get_chantypes_or_default,
    get_mode_limit_or_default, get_prefix, get_prefix_or_default, get_statusmsg_or_default,
};
use isupport::parse::{
    parse_optional_letters, parse_optional_positive_integer, parse_required_letter,
    parse_required_letters, parse_required_positive_integer,
};

fn parse(token: &str) -> Result<Operation, ErrorReason> {
    Operation::parse(token)
}

fn parse_param(token: &str) -> Parameter {
    match parse(token).expect("token should parse") {
        Operation::Add(p) => p,
        Operation::Remove(name) => panic!("expected an addition, got removal of {name}"),
    }
}

// ---- token-level behavior ----

#[test]
fn empty_token_is_an_error() {
    assert_eq!(parse(""), Err(ErrorReason::EmptyToken));
    assert_eq!(
        ErrorReason::EmptyToken.message(),
        "empty ISUPPORT token not allowed"
    );
}

#[test]
fn unknown_key_is_an_error() {
    assert_eq!(parse("NOSUCHKEY=1"), Err(ErrorReason::UnknownParameter));
    assert_eq!(parse("NOSUCHKEY"), Err(ErrorReason::UnknownParameter));
    assert_eq!(
        ErrorReason::UnknownParameter.message(),
        "unknown ISUPPORT parameter"
    );
}

#[test]
fn removal_of_recognized_name() {
    let op = parse("-AWAYLEN").unwrap();
    assert_eq!(op, Operation::Remove("AWAYLEN".to_string()));
    assert_eq!(op.kind(), Some(Kind::AWAYLEN));
}

#[test]
fn removal_of_unrecognized_name_never_fails() {
    for token in ["-WATCH", "-NOSUCHKEY", "-", "-draft/weird", "-="] {
        let op = parse(token).unwrap();
        match op {
            Operation::Remove(name) => assert_eq!(name, &token[1..]),
            Operation::Add(_) => panic!("a leading dash must parse as a removal"),
        }
    }
    assert_eq!(parse("-WATCH").unwrap().kind(), None);
}

// ---- integer-valued keys ----

#[test]
fn required_integer_round_trip() {
    assert_eq!(parse_param("ACCEPT=5"), Parameter::ACCEPT(5));
    assert_eq!(parse_param("AWAYLEN=200"), Parameter::AWAYLEN(200));
    assert_eq!(parse_param("CHANNELLEN=32"), Parameter::CHANNELLEN(32));
    assert_eq!(parse_param("HOSTLEN=64"), Parameter::HOSTLEN(64));
    assert_eq!(parse_param("KEYLEN=23"), Parameter::KEYLEN(23));
    assert_eq!(parse_param("KICKLEN=255"), Parameter::KICKLEN(255));
    assert_eq!(parse_param("LINELEN=512"), Parameter::LINELEN(512));
    assert_eq!(parse_param("MAXBANS=30"), Parameter::MAXBANS(30));
    assert_eq!(parse_param("MAXCHANNELS=25"), Parameter::MAXCHANNELS(25));
    assert_eq!(parse_param("MAXPARA=12"), Parameter::MAXPARA(12));
    assert_eq!(parse_param("NAMELEN=150"), Parameter::NAMELEN(150));
    assert_eq!(parse_param("TOPICLEN=390"), Parameter::TOPICLEN(390));
    assert_eq!(parse_param("USERLEN=10"), Parameter::USERLEN(10));
    assert_eq!(parse_param("WATCH=128"), Parameter::WATCH(128));
}

#[test]
fn integer_values_follow_decimal_parsing() {
    assert_eq!(parse_param("AWAYLEN=0"), Parameter::AWAYLEN(0));
    assert_eq!(parse_param("AWAYLEN=+5"), Parameter::AWAYLEN(5));
    assert_eq!(parse_param("AWAYLEN=007"), Parameter::AWAYLEN(7));
    assert_eq!(parse_param("AWAYLEN=65535"), Parameter::AWAYLEN(65535));
    assert_eq!(
        parse("AWAYLEN=65536"),
        Err(ErrorReason::PositiveIntegerRequired)
    );
    assert_eq!(
        parse("AWAYLEN=abc"),
        Err(ErrorReason::PositiveIntegerRequired)
    );
    assert_eq!(parse("AWAYLEN="), Err(ErrorReason::PositiveIntegerRequired));
    assert_eq!(parse("AWAYLEN=+"), Err(ErrorReason::PositiveIntegerRequired));
    assert_eq!(parse("AWAYLEN"), Err(ErrorReason::ValueRequired));
    assert_eq!(
        ErrorReason::PositiveIntegerRequired.message(),
        "value required to be a positive integer"
    );
}

#[test]
fn optional_integer_round_trip() {
    assert_eq!(parse_param("MAXTARGETS=4"), Parameter::MAXTARGETS(Some(4)));
    assert_eq!(parse_param("MAXTARGETS="), Parameter::MAXTARGETS(None));
    assert_eq!(parse_param("MAXTARGETS"), Parameter::MAXTARGETS(None));
    assert_eq!(parse_param("METADATA=30"), Parameter::METADATA(Some(30)));
    assert_eq!(parse_param("MODES=6"), Parameter::MODES(Some(6)));
    assert_eq!(parse_param("MODES"), Parameter::MODES(None));
    assert_eq!(parse_param("MONITOR=100"), Parameter::MONITOR(Some(100)));
    assert_eq!(parse_param("SILENCE=15"), Parameter::SILENCE(Some(15)));
    assert_eq!(
        parse("MODES=x"),
        Err(ErrorReason::OptionalPositiveIntegerRequired)
    );
}

// ---- letter-valued keys ----

#[test]
fn letter_keys_round_trip() {
    assert_eq!(parse_param("BOT=B"), Parameter::BOT('B'));
    assert_eq!(parse_param("CALLERID=g"), Parameter::CALLERID('g'));
    assert_eq!(parse_param("DEAF=D"), Parameter::DEAF('D'));
    assert_eq!(parse_param("EXCEPTS=e"), Parameter::EXCEPTS('e'));
    assert_eq!(parse_param("INVEX=I"), Parameter::INVEX('I'));
    assert_eq!(parse("BOT=1"), Err(ErrorReason::LetterRequired));
    assert_eq!(parse("BOT"), Err(ErrorReason::ValueRequired));
}

#[test]
fn caller_id_without_value_gets_default_but_empty_value_errors() {
    assert_eq!(parse_param("CALLERID"), Parameter::CALLERID('g'));
    assert_eq!(parse("CALLERID="), Err(ErrorReason::LetterRequired));
}

#[test]
fn default_letter_keys_without_value() {
    assert_eq!(parse_param("DEAF"), Parameter::DEAF('D'));
    assert_eq!(parse_param("EXCEPTS"), Parameter::EXCEPTS('e'));
    assert_eq!(parse_param("INVEX"), Parameter::INVEX('I'));
}

#[test]
fn letters_keys_round_trip() {
    assert_eq!(parse_param("VLIST=b"), Parameter::VLIST("b".to_string()));
    assert_eq!(parse("VLIST=12"), Err(ErrorReason::LettersRequired));
    assert_eq!(parse("VLIST="), Err(ErrorReason::ValueRequired));
    assert_eq!(parse("VLIST"), Err(ErrorReason::ValueRequired));
    assert_eq!(
        parse_param("ESILENCE=CcdiNnPpTtx"),
        Parameter::ESILENCE(Some("CcdiNnPpTtx".to_string()))
    );
    assert_eq!(parse_param("ESILENCE="), Parameter::ESILENCE(None));
    assert_eq!(parse_param("ESILENCE"), Parameter::ESILENCE(None));
    assert_eq!(
        parse("ESILENCE=1a"),
        Err(ErrorReason::LettersRequiredIfSpecified)
    );
}

// ---- boolean-style keys ----

#[test]
fn flag_keys_round_trip() {
    assert_eq!(parse_param("ETRACE"), Parameter::ETRACE);
    assert_eq!(parse_param("FNC"), Parameter::FNC);
    assert_eq!(parse_param("KNOCK"), Parameter::KNOCK);
    assert_eq!(parse_param("MAP"), Parameter::MAP);
    assert_eq!(parse_param("NAMESX"), Parameter::NAMESX);
    assert_eq!(parse_param("OVERRIDE"), Parameter::OVERRIDE);
    assert_eq!(parse_param("SAFELIST"), Parameter::SAFELIST);
    assert_eq!(parse_param("SECURELIST"), Parameter::SECURELIST);
    assert_eq!(parse_param("UHNAMES"), Parameter::UHNAMES);
    assert_eq!(parse_param("USERIP"), Parameter::USERIP);
    assert_eq!(parse_param("UTF8ONLY"), Parameter::UTF8ONLY);
    assert_eq!(parse_param("WHOX"), Parameter::WHOX);
}

#[test]
fn cnotice_and_cprivmsg_parse_only_with_a_value_marker() {
    assert_eq!(parse_param("CNOTICE="), Parameter::CNOTICE);
    assert_eq!(parse_param("CPRIVMSG="), Parameter::CPRIVMSG);
    assert_eq!(parse("CNOTICE"), Err(ErrorReason::UnknownParameter));
    assert_eq!(parse("CPRIVMSG"), Err(ErrorReason::UnknownParameter));
}

// ---- casemapping ----

#[test]
fn casemapping_values_are_case_insensitive() {
    assert_eq!(
        parse_param("CASEMAPPING=ascii"),
        Parameter::CASEMAPPING(CaseMap::ASCII)
    );
    assert_eq!(
        parse_param("CASEMAPPING=ASCII"),
        Parameter::CASEMAPPING(CaseMap::ASCII)
    );
    assert_eq!(
        parse_param("CASEMAPPING=rfc1459"),
        Parameter::CASEMAPPING(CaseMap::RFC1459)
    );
    assert_eq!(
        parse_param("CASEMAPPING=RFC1459-STRICT"),
        Parameter::CASEMAPPING(CaseMap::RFC1459_STRICT)
    );
    assert_eq!(
        parse_param("CASEMAPPING=rfc7613"),
        Parameter::CASEMAPPING(CaseMap::RFC7613)
    );
    assert_eq!(
        parse("CASEMAPPING=latin1"),
        Err(ErrorReason::UnknownCaseMapping)
    );
    assert_eq!(parse("CASEMAPPING"), Err(ErrorReason::ValueRequired));
}

// ---- list grammars ----

#[test]
fn chanlimit_round_trip() {
    assert_eq!(
        parse_param("CHANLIMIT=#:10,&:"),
        Parameter::CHANLIMIT(vec![
            ChannelLimit {
                prefix: '#',
                limit: Some(10)
            },
            ChannelLimit {
                prefix: '&',
                limit: None
            },
        ])
    );
}

#[test]
fn chanlimit_expands_multiple_prefixes_and_drops_bad_entries() {
    assert_eq!(
        parse_param("CHANLIMIT=#&:25,+:bad,!:5"),
        Parameter::CHANLIMIT(vec![
            ChannelLimit {
                prefix: '#',
                limit: Some(25)
            },
            ChannelLimit {
                prefix: '&',
                limit: Some(25)
            },
            ChannelLimit {
                prefix: '!',
                limit: Some(5)
            },
        ])
    );
    assert_eq!(parse("CHANLIMIT=abc"), Err(ErrorReason::NoValidChannelLimits));
    assert_eq!(parse("CHANLIMIT"), Err(ErrorReason::ValuesRequired));
}

#[test]
fn chanmodes_scenario() {
    let p = parse_param("CHANMODES=b,k,l,imnpst");
    match p {
        Parameter::CHANMODES(groups) => {
            assert_eq!(groups.len(), 4);
            assert_eq!((groups[0].kind, groups[0].modes.as_str()), ('A', "b"));
            assert_eq!((groups[1].kind, groups[1].modes.as_str()), ('B', "k"));
            assert_eq!((groups[2].kind, groups[2].modes.as_str()), ('C', "l"));
            assert_eq!((groups[3].kind, groups[3].modes.as_str()), ('D', "imnpst"));
        }
        other => panic!("expected CHANMODES, got {other:?}"),
    }
}

#[test]
fn chanmodes_drops_empty_and_invalid_groups() {
    let p = parse_param("CHANMODES=b,,1k,imnpst");
    match p {
        Parameter::CHANMODES(groups) => {
            assert_eq!(groups.len(), 2);
            assert_eq!((groups[0].kind, groups[0].modes.as_str()), ('A', "b"));
            assert_eq!((groups[1].kind, groups[1].modes.as_str()), ('D', "imnpst"));
        }
        other => panic!("expected CHANMODES, got {other:?}"),
    }
    assert_eq!(parse("CHANMODES=1,"), Err(ErrorReason::NoValidChannelModes));
    assert_eq!(parse("CHANMODES"), Err(ErrorReason::ValuesRequired));
}

#[test]
fn chantypes_round_trip() {
    assert_eq!(
        parse_param("CHANTYPES=#&"),
        Parameter::CHANTYPES(Some(vec!['#', '&']))
    );
    assert_eq!(parse_param("CHANTYPES="), Parameter::CHANTYPES(None));
    assert_eq!(parse_param("CHANTYPES"), Parameter::CHANTYPES(None));
}

#[test]
fn chathistory_accepts_draft_spelling() {
    assert_eq!(parse_param("CHATHISTORY=50"), Parameter::CHATHISTORY(50));
    assert_eq!(
        parse_param("draft/CHATHISTORY=50"),
        Parameter::CHATHISTORY(50)
    );
    assert_eq!(parse("CHATHISTORY"), Err(ErrorReason::ValueRequired));
}

#[test]
fn clienttagdeny_round_trip() {
    assert_eq!(
        parse_param("CLIENTTAGDENY=*,-typing,reply"),
        Parameter::CLIENTTAGDENY(vec![
            ClientOnlyTags::DenyAll,
            ClientOnlyTags::Allowed("typing".to_string()),
            ClientOnlyTags::Denied("reply".to_string()),
        ])
    );
    assert_eq!(parse("CLIENTTAGDENY"), Err(ErrorReason::ValuesRequired));
}

#[test]
fn clientver_round_trip() {
    assert_eq!(parse_param("CLIENTVER=3.2"), Parameter::CLIENTVER(3, 2));
    assert_eq!(parse("CLIENTVER=3"), Err(ErrorReason::InvalidClientVersion));
    assert_eq!(
        parse("CLIENTVER=a.b"),
        Err(ErrorReason::InvalidClientVersion)
    );
    assert_eq!(
        ErrorReason::InvalidClientVersion.message(),
        "value must be a <major>.<minor> version number"
    );
}

#[test]
fn elist_uppercases_its_value() {
    assert_eq!(parse_param("ELIST=CMNTU"), Parameter::ELIST("CMNTU".to_string()));
    assert_eq!(parse_param("ELIST=cmntu"), Parameter::ELIST("CMNTU".to_string()));
    assert_eq!(parse("ELIST=XYZ"), Err(ErrorReason::InvalidSearchExtensions));
    assert_eq!(parse("ELIST="), Err(ErrorReason::ValueRequired));
    assert_eq!(parse("ELIST"), Err(ErrorReason::ValueRequired));
}

#[test]
fn extban_round_trip() {
    assert_eq!(
        parse_param("EXTBAN=$,abc"),
        Parameter::EXTBAN(Some('$'), "abc".to_string())
    );
    assert_eq!(
        parse_param("EXTBAN=,ABC"),
        Parameter::EXTBAN(None, "ABC".to_string())
    );
    assert_eq!(parse("EXTBAN=$,a1c"), Err(ErrorReason::InvalidExtendedBanTypes));
    assert_eq!(
        parse("EXTBAN=\u{e9},abc"),
        Err(ErrorReason::InvalidExtendedBanPrefix)
    );
    assert_eq!(parse("EXTBAN=abc"), Err(ErrorReason::NoValidExtendedBanMasks));
    assert_eq!(parse("EXTBAN"), Err(ErrorReason::ValueRequired));
}

#[test]
fn maxlist_round_trip() {
    assert_eq!(
        parse_param("MAXLIST=beI:60,q:10"),
        Parameter::MAXLIST(vec![
            ModesLimit {
                modes: "beI".to_string(),
                limit: 60
            },
            ModesLimit {
                modes: "q".to_string(),
                limit: 10
            },
        ])
    );
    assert_eq!(parse("MAXLIST=beI:"), Err(ErrorReason::NoValidModesLimits));
    assert_eq!(parse("MAXLIST=:10"), Err(ErrorReason::NoValidModesLimits));
    assert_eq!(parse("MAXLIST"), Err(ErrorReason::ValuesRequired));
}

#[test]
fn msgreftypes_reverses_declared_precedence() {
    assert_eq!(
        parse_param("MSGREFTYPES=timestamp,msgid"),
        Parameter::MSGREFTYPES(vec![
            MessageReferenceType::MessageId,
            MessageReferenceType::Timestamp,
        ])
    );
    assert_eq!(
        parse_param("MSGREFTYPES=msgid,unknown"),
        Parameter::MSGREFTYPES(vec![MessageReferenceType::MessageId])
    );
    assert_eq!(parse_param("MSGREFTYPES="), Parameter::MSGREFTYPES(vec![]));
    assert_eq!(parse_param("MSGREFTYPES"), Parameter::MSGREFTYPES(vec![]));
}

#[test]
fn prefix_scenario() {
    assert_eq!(
        parse_param("PREFIX=(ov)@+"),
        Parameter::PREFIX(vec![
            PrefixMap {
                mode: 'o',
                prefix: '@'
            },
            PrefixMap {
                mode: 'v',
                prefix: '+'
            },
        ])
    );
    assert_eq!(parse_param("PREFIX"), Parameter::PREFIX(vec![]));
    assert_eq!(parse("PREFIX=ov@+"), Err(ErrorReason::UnrecognizedPrefixFormat));
}

#[test]
fn statusmsg_round_trip() {
    assert_eq!(parse_param("STATUSMSG=@+"), Parameter::STATUSMSG(vec!['@', '+']));
    assert_eq!(parse_param("STATUSMSG="), Parameter::STATUSMSG(vec![]));
    assert_eq!(parse("STATUSMSG"), Err(ErrorReason::ValueRequired));
}

#[test]
fn targmax_uppercases_commands_and_drops_bad_entries() {
    assert_eq!(
        parse_param("TARGMAX=privmsg:4,NOTICE:,kick:bad"),
        Parameter::TARGMAX(vec![
            CommandTargetLimit {
                command: "PRIVMSG".to_string(),
                limit: Some(4)
            },
            CommandTargetLimit {
                command: "NOTICE".to_string(),
                limit: None
            },
        ])
    );
    assert_eq!(parse("TARGMAX=:4"), Err(ErrorReason::NoValidCommandTargetLimits));
    assert_eq!(parse_param("TARGMAX"), Parameter::TARGMAX(vec![]));
}

#[test]
fn accountextban_and_network_keep_values() {
    assert_eq!(
        parse_param("ACCOUNTEXTBAN=a,R"),
        Parameter::ACCOUNTEXTBAN(vec!["a".to_string(), "R".to_string()])
    );
    assert_eq!(
        parse_param("NETWORK=Libera.Chat"),
        Parameter::NETWORK("Libera.Chat".to_string())
    );
    assert_eq!(parse("NETWORK"), Err(ErrorReason::ValueRequired));
}

#[test]
fn nicklen_accepts_alias_spelling() {
    assert_eq!(parse_param("NICKLEN=9"), Parameter::NICKLEN(9));
    assert_eq!(parse_param("MAXNICKLEN=16"), Parameter::NICKLEN(16));
    assert_eq!(parse("MAXNICKLEN"), Err(ErrorReason::ValueRequired));
}

// ---- kinds ----

#[test]
fn persisted_parameters_have_kinds() {
    assert_eq!(parse("AWAYLEN=8").unwrap().kind(), Some(Kind::AWAYLEN));
    assert_eq!(parse("CHANMODES=b,k,l,imnpst").unwrap().kind(), Some(Kind::CHANMODES));
    assert_eq!(parse("WHOX").unwrap().kind(), Some(Kind::WHOX));
    assert_eq!(parse_param("MODES=4").kind(), Some(Kind::MODES));
}

#[test]
fn transient_parameters_have_no_kind() {
    assert_eq!(parse("NAMESX").unwrap().kind(), None);
    assert_eq!(parse("CALLERID").unwrap().kind(), None);
    assert_eq!(parse("BOT=B").unwrap().kind(), None);
    assert_eq!(parse("ACCOUNTEXTBAN=a").unwrap().kind(), None);
}

// ---- the capability table ----

#[test]
fn table_stores_and_overwrites() {
    let mut table = CapabilityTable::new();
    table.apply(parse("AWAYLEN=100").unwrap());
    match table.get(Kind::AWAYLEN) {
        Some(Parameter::AWAYLEN(n)) => assert_eq!(*n, 100),
        other => panic!("expected AWAYLEN entry, got {other:?}"),
    }
    table.apply(parse("AWAYLEN=250").unwrap());
    match table.get(Kind::AWAYLEN) {
        Some(Parameter::AWAYLEN(n)) => assert_eq!(*n, 250),
        other => panic!("expected AWAYLEN entry, got {other:?}"),
    }
}

#[test]
fn add_then_remove_clears_the_entry() {
    let mut table = CapabilityTable::new();
    table.apply(parse("AWAYLEN=100").unwrap());
    table.apply(parse("-AWAYLEN").unwrap());
    assert!(table.get(Kind::AWAYLEN).is_none());
}

#[test]
fn removing_an_unmapped_name_is_a_noop() {
    let mut table = CapabilityTable::new();
    table.apply(parse("AWAYLEN=100").unwrap());
    table.apply(parse("-WATCH").unwrap());
    table.apply(parse("-NOSUCHKEY").unwrap());
    assert!(table.get(Kind::AWAYLEN).is_some());
}

#[test]
fn transient_addition_is_not_stored() {
    let mut table = CapabilityTable::new();
    table.apply(parse("NAMESX").unwrap());
    for kind in [Kind::AWAYLEN, Kind::MODES, Kind::WHOX] {
        assert!(table.get(kind).is_none());
    }
}

#[test]
fn mode_limit_default_scenario() {
    let table = CapabilityTable::new();
    assert_eq!(get_mode_limit_or_default(&table), Some(3));
    let mut table = CapabilityTable::new();
    table.apply(parse("MODES=6").unwrap());
    assert_eq!(get_mode_limit_or_default(&table), Some(6));
    table.apply(parse("MODES").unwrap());
    assert_eq!(get_mode_limit_or_default(&table), None);
}

#[test]
fn casemapping_accessor_defaults_to_rfc7613() {
    let table = CapabilityTable::new();
    assert_eq!(get_casemapping_or_default(&table), CaseMap::RFC7613);
    let mut table = CapabilityTable::new();
    table.apply(parse("CASEMAPPING=ascii").unwrap());
    assert_eq!(get_casemapping_or_default(&table), CaseMap::ASCII);
}

#[test]
fn chanmodes_accessor_default() {
    let table = CapabilityTable::new();
    let groups = get_chanmodes_or_default(&table);
    let rendered: Vec<(char, &str)> = groups
        .iter()
        .map(|g| (g.kind, g.modes.as_str()))
        .collect();
    assert_eq!(
        rendered,
        vec![('A', "beI"), ('B', "k"), ('C', "l"), ('D', "imstn")]
    );
}

#[test]
fn chanmodes_accessor_prefers_stored_value() {
    let mut table = CapabilityTable::new();
    table.apply(parse("CHANMODES=b,k,l,imnpst").unwrap());
    let groups = get_chanmodes_or_default(&table);
    assert_eq!(groups.len(), 4);
    assert_eq!(groups[3].modes.as_str(), "imnpst");
}

#[test]
fn chantypes_accessor_default_and_stored() {
    let table = CapabilityTable::new();
    assert_eq!(get_chantypes_or_default(&table), vec!['#', '&']);
    let mut table = CapabilityTable::new();
    table.apply(parse("CHANTYPES=#").unwrap());
    assert_eq!(get_chantypes_or_default(&table), vec!['#']);
    table.apply(parse("CHANTYPES=").unwrap());
    assert_eq!(get_chantypes_or_default(&table), vec!['#', '&']);
}

#[test]
fn prefix_accessor_default_ranking() {
    let table = CapabilityTable::new();
    assert!(get_prefix(&table).is_none());
    let pairs: Vec<(char, char)> = get_prefix_or_default(&table)
        .iter()
        .map(|p| (p.prefix, p.mode))
        .collect();
    assert_eq!(
        pairs,
        vec![('~', 'q'), ('&', 'a'), ('@', 'o'), ('%', 'h'), ('+', 'v')]
    );
}

#[test]
fn prefix_accessor_prefers_stored_value() {
    let mut table = CapabilityTable::new();
    table.apply(parse("PREFIX=(ov)@+").unwrap());
    let stored = get_prefix(&table).expect("the prefix should be stored");
    assert_eq!(
        stored,
        vec![
            PrefixMap {
                mode: 'o',
                prefix: '@'
            },
            PrefixMap {
                mode: 'v',
                prefix: '+'
            }
        ]
    );
    assert_eq!(get_prefix_or_default(&table), stored);
}

#[test]
fn statusmsg_accessor_default_is_empty() {
    let table = CapabilityTable::new();
    assert_eq!(get_statusmsg_or_default(&table), Vec::<char>::new());
    let mut table = CapabilityTable::new();
    table.apply(parse("STATUSMSG=@+").unwrap());
    assert_eq!(get_statusmsg_or_default(&table), vec!['@', '+']);
}

#[test]
fn find_target_limit_takes_the_first_matching_entry() {
    let mut table = CapabilityTable::new();
    assert_eq!(find_target_limit(&table, "PRIVMSG"), None);
    table.apply(parse("TARGMAX=PRIVMSG:4,NOTICE:").unwrap());
    assert_eq!(find_target_limit(&table, "PRIVMSG"), Some(4));
    assert_eq!(find_target_limit(&table, "NOTICE"), None);
    assert_eq!(find_target_limit(&table, "KICK"), None);
}

// ---- normalization ----

#[test]
fn normalize_ascii() {
    assert_eq!(CaseMap::ASCII.normalize("NiCk[]~\\"), "nick[]~\\");
}

#[test]
fn normalize_rfc1459() {
    assert_eq!(CaseMap::RFC1459.normalize("NICK[]\\~"), "nick{}|^");
}

#[test]
fn normalize_rfc1459_strict_keeps_tilde() {
    assert_eq!(CaseMap::RFC1459_STRICT.normalize("NICK[]\\~"), "nick{}|~");
}

#[test]
fn normalize_rfc7613_is_unicode_aware() {
    assert_eq!(CaseMap::RFC7613.normalize("\u{c5}BC"), "\u{e5}bc");
    assert_eq!(CaseMap::RFC7613.normalize("NICK"), "nick");
}

#[test]
fn normalize_is_idempotent_on_all_strategies() {
    let inputs = ["NiCk[]\\~", "\u{c5}BC\u{df}", "plain", "123{}|^"];
    for cm in [
        CaseMap::ASCII,
        CaseMap::RFC1459,
        CaseMap::RFC1459_STRICT,
        CaseMap::RFC7613,
    ] {
        for s in inputs {
            let once = cm.normalize(s);
            let twice = cm.normalize(&once);
            assert_eq!(once, twice);
        }
    }
}

#[test]
fn default_casemap_is_rfc7613() {
    assert_eq!(CaseMap::default(), CaseMap::RFC7613);
}

// ---- history references and fuzzing ----

#[test]
fn wire_text_renders_each_reference() {
    assert_eq!(
        MessageReference::Timestamp(0).wire_text(),
        "timestamp=1970-01-01T00:00:00.000Z"
    );
    assert_eq!(
        MessageReference::Timestamp(947638923004).wire_text(),
        "timestamp=2000-01-12T01:02:03.004Z"
    );
    assert_eq!(
        MessageReference::MessageId("abc123".to_string()).wire_text(),
        "msgid=abc123"
    );
    assert_eq!(MessageReference::Absent.wire_text(), "*");
}

#[test]
fn message_reference_matching() {
    let ts = MessageReference::Timestamp(1000);
    assert!(ts.matches_message(1000, Some("x")));
    assert!(!ts.matches_message(1001, Some("x")));
    let id = MessageReference::MessageId("abc".to_string());
    assert!(id.matches_message(0, Some("abc")));
    assert!(!id.matches_message(0, Some("abd")));
    assert!(!id.matches_message(0, None));
    assert!(!MessageReference::Absent.matches_message(0, Some("abc")));
    assert!(!MessageReference::Absent.matches_message(0, None));
}

#[test]
fn fuzz_start_and_end_shift_five_seconds() {
    assert_eq!(
        fuzz_start_message_reference(MessageReference::Timestamp(10_000)),
        MessageReference::Timestamp(5_000)
    );
    assert_eq!(
        fuzz_end_message_reference(MessageReference::Timestamp(10_000)),
        MessageReference::Timestamp(15_000)
    );
    let id = MessageReference::MessageId("m".to_string());
    assert_eq!(fuzz_start_message_reference(id.clone()), id);
    assert_eq!(fuzz_end_message_reference(MessageReference::Absent), MessageReference::Absent);
}

#[test]
fn fuzz_range_scenario() {
    let t: i64 = 1_700_000_000_000;
    let (a, b) = fuzz_message_reference_range(
        MessageReference::Timestamp(t),
        MessageReference::Timestamp(t + 10_000),
    );
    assert_eq!(a, MessageReference::Timestamp(t - 5_000));
    assert_eq!(b, MessageReference::Timestamp(t + 15_000));
}

#[test]
fn fuzz_range_is_order_insensitive_up_to_swap() {
    let t: i64 = 1_700_000_000_000;
    let (a1, b1) = fuzz_message_reference_range(
        MessageReference::Timestamp(t),
        MessageReference::Timestamp(t + 10_000),
    );
    let (a2, b2) = fuzz_message_reference_range(
        MessageReference::Timestamp(t + 10_000),
        MessageReference::Timestamp(t),
    );
    assert!((a1 == a2 && b1 == b2) || (a1 == b2 && b1 == a2));
}

#[test]
fn fuzz_range_with_equal_timestamps_narrows_inward() {
    let t: i64 = 1_000_000;
    let (a, b) = fuzz_message_reference_range(
        MessageReference::Timestamp(t),
        MessageReference::Timestamp(t),
    );
    assert_eq!(a, MessageReference::Timestamp(t + 5_000));
    assert_eq!(b, MessageReference::Timestamp(t - 5_000));
}

#[test]
fn fuzz_range_passes_non_timestamps_through() {
    let id = MessageReference::MessageId("m".to_string());
    let ts = MessageReference::Timestamp(5_000);
    let (a, b) = fuzz_message_reference_range(id.clone(), ts.clone());
    assert_eq!(a, id);
    assert_eq!(b, ts);
}

#[test]
fn chathistory_subcommand_targets() {
    let latest = ChatHistorySubcommand::Latest(
        "#chan".to_string(),
        MessageReference::Absent,
        50,
    );
    assert_eq!(latest.target(), Some("#chan"));
    let before = ChatHistorySubcommand::Before(
        "nick".to_string(),
        MessageReference::Timestamp(0),
        25,
    );
    assert_eq!(before.target(), Some("nick"));
    let between = ChatHistorySubcommand::Between(
        "#chan".to_string(),
        MessageReference::Timestamp(0),
        MessageReference::Timestamp(1),
        25,
    );
    assert_eq!(between.target(), Some("#chan"));
    let targets = ChatHistorySubcommand::Targets(
        MessageReference::Timestamp(0),
        MessageReference::Timestamp(1),
        25,
    );
    assert_eq!(targets.target(), None);
}

// ---- WHO/WHOX correlation ----

#[test]
fn who_token_round_trip() {
    assert_eq!(WhoToken::parse("9").unwrap().to_owned(), "9");
    assert_eq!(WhoToken::parse("42").unwrap().to_owned(), "42");
    assert_eq!(WhoToken::parse("123").unwrap().to_owned(), "123");
}

#[test]
fn who_token_rejects_bad_input() {
    assert_eq!(WhoToken::parse(""), Err(ErrorReason::WhoTokenFormat));
    assert_eq!(WhoToken::parse("1234"), Err(ErrorReason::WhoTokenFormat));
    assert_eq!(WhoToken::parse("a1"), Err(ErrorReason::WhoTokenFormat));
    assert_eq!(
        ErrorReason::WhoTokenFormat.message(),
        "WHO token must be 1-3 ASCII digits"
    );
}

#[test]
fn whox_poll_parameters_are_distinguishable() {
    assert_eq!(WhoXPollParameters::Default.fields(), "tcnf");
    assert_eq!(WhoXPollParameters::WithAccountName.fields(), "tcnfa");
    assert_eq!(WhoXPollParameters::Default.token().to_owned(), "9");
    assert_eq!(WhoXPollParameters::WithAccountName.token().to_owned(), "99");
}

// ---- mode-kind descriptions ----

#[test]
fn mode_kind_descriptions() {
    let groups = match parse_param("CHANMODES=b,k,l,imnpst") {
        Parameter::CHANMODES(groups) => groups,
        other => panic!("expected CHANMODES, got {other:?}"),
    };
    assert_eq!(
        groups[0].description(),
        "requires argument to modify & no argument to query"
    );
    assert_eq!(groups[1].description(), "requires argument");
    assert_eq!(
        groups[2].description(),
        "requires argument to set & no argument to clear"
    );
    assert_eq!(groups[3].description(), "requires no argument");
}

#[test]
fn chathistory_states_are_distinct() {
    let states = [
        ChatHistoryState::Exhausted,
        ChatHistoryState::PendingRequest,
        ChatHistoryState::Ready,
    ];
    for (i, a) in states.iter().enumerate() {
        for (j, b) in states.iter().enumerate() {
            assert_eq!(i == j, a == b);
        }
    }
}

#[test]
fn primitive_parsers_directly() {
    assert_eq!(parse_required_positive_integer("42"), Ok(42));
    assert_eq!(
        parse_required_positive_integer(""),
        Err(ErrorReason::PositiveIntegerRequired)
    );
    assert_eq!(parse_optional_positive_integer(""), Ok(None));
    assert_eq!(parse_optional_positive_integer("7"), Ok(Some(7)));
    assert_eq!(parse_required_letter("g", None), Ok('g'));
    assert_eq!(parse_required_letter("", Some('e')), Ok('e'));
    assert_eq!(parse_required_letter("", None), Err(ErrorReason::LetterRequired));
    assert_eq!(parse_required_letter("5", Some('e')), Err(ErrorReason::LetterRequired));
    assert_eq!(parse_required_letters("abc"), Ok("abc".to_string()));
    assert_eq!(parse_required_letters(""), Err(ErrorReason::ValueRequired));
    assert_eq!(parse_optional_letters(""), Ok(None));
    assert_eq!(parse_optional_letters("Zz"), Ok(Some("Zz".to_string())));
}
