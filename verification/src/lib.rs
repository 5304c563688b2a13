//! Parsing and modelling of IRC `ISUPPORT` (numeric 005) capability
//! advertisements: a defensive token parser, a typed capability table with
//! protocol-correct defaults, case-mapping normalization, history-pagination
//! references, and WHO/WHOX correlation tokens.

pub mod casemap;
pub mod error;
pub mod history;
pub mod numbers;
pub mod param;
pub mod parse;
pub mod table;
pub mod who;
pub mod text;

pub use casemap::CaseMap;
pub use error::ErrorReason;
pub use history::{
    ChatHistoryState, ChatHistorySubcommand, FUZZ_MILLIS, MessageReference,
    fuzz_end_message_reference, fuzz_message_reference_range, fuzz_start_message_reference,
};
pub use param::{
    ChannelLimit, ClientOnlyTags, CommandTargetLimit, Kind, MessageReferenceType, ModeKind,
    ModesLimit, Parameter, PrefixMap,
};
pub use parse::Operation;
pub use table::{
    CapabilityTable, find_target_limit, get_casemapping_or_default, get_chanmodes_or_default,
    get_chantypes_or_default, get_mode_limit_or_default, get_prefix, get_prefix_or_default,
    get_statusmsg_or_default,
};
pub use who::{WhoToken, WhoXPollParameters};
