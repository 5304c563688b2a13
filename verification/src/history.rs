//! The history-pagination model: message references, the fixed 5-second
//! timestamp fuzzing that compensates for clock skew between client- and
//! server-observed times, and the CHATHISTORY subcommand shapes.

use vstd::prelude::*;
use vstd::string::*;
use crate::text::str_eq;

verus! {

/// How far a timestamp reference is shifted outward, in milliseconds.
pub const FUZZ_MILLIS: i64 = 5000;

/// Timestamps a wire rendering can be produced for: within chrono's
/// representable range of about ±262,000 years around the common era.
pub const TIMESTAMP_MILLIS_MIN: i64 = -8000000000000000;

pub const TIMESTAMP_MILLIS_MAX: i64 = 8000000000000000;

/// A reference to a message: by server time (milliseconds since the Unix
/// epoch, UTC), by message id, or no reference at all.
#[derive(Clone, Debug, PartialEq)]
pub enum MessageReference {
    Timestamp(i64),
    MessageId(String),
    Absent,
}

/// What `timestamp=` references carry on the wire: the RFC 3339 rendering
/// of the instant, in UTC with millisecond precision and a trailing `Z`.
pub uninterp spec fn rfc3339_utc_millis_of(millis: i64) -> Seq<char>;

/// Relies on chrono's `DateTime::<Utc>::from_timestamp_millis`, which is
/// `Some` for every count of milliseconds within about ±262,000 years of
/// the common era, and on `DateTime::to_rfc3339_opts(SecondsFormat::Millis,
/// true)`, whose rendering is a pure function of the instant alone.
#[verifier::external_body]
fn format_rfc3339_utc_millis(millis: i64) -> (r: String)
    requires
        TIMESTAMP_MILLIS_MIN <= millis <= TIMESTAMP_MILLIS_MAX,
    ensures
        r@ == rfc3339_utc_millis_of(millis),
{
    let instant = chrono::DateTime::<chrono::Utc>::from_timestamp_millis(millis).unwrap();
    instant.to_rfc3339_opts(chrono::SecondsFormat::Millis, true)
}

impl MessageReference {
    pub open spec fn spec_wire_text(&self) -> Seq<char> {
        match self {
            MessageReference::Timestamp(ms) => "timestamp="@ + rfc3339_utc_millis_of(*ms),
            MessageReference::MessageId(id) => "msgid="@ + id@,
            MessageReference::Absent => "*"@,
        }
    }

    /// The wire rendering of this reference: `timestamp=<RFC 3339 millis,
    /// UTC>`, `msgid=<id>`, or `*` for no reference.
    pub fn wire_text(&self) -> (r: String)
        requires
            (match self {
                MessageReference::Timestamp(ms) => TIMESTAMP_MILLIS_MIN <= *ms
                    <= TIMESTAMP_MILLIS_MAX,
                _ => true,
            }),
        ensures
            r@ == self.spec_wire_text(),
    {
        match self {
            MessageReference::Timestamp(ms) => {
                let mut s = String::from_str("timestamp=");
                let rendered = format_rfc3339_utc_millis(*ms);
                s.append(rendered.as_str());
                s
            },
            MessageReference::MessageId(id) => {
                let mut s = String::from_str("msgid=");
                s.append(id.as_str());
                s
            },
            MessageReference::Absent => String::from_str("*"),
        }
    }

    pub open spec fn spec_matches_message(
        &self,
        server_time_millis: i64,
        message_id: Option<Seq<char>>,
    ) -> bool {
        match self {
            MessageReference::Timestamp(ms) => *ms == server_time_millis,
            MessageReference::MessageId(id) => (match message_id {
                Some(m) => m == id@,
                None => false,
            }),
            MessageReference::Absent => false,
        }
    }

    /// Whether this reference selects a message with the given server time
    /// and id; a reference of `Absent` matches no message.
    pub fn matches_message(&self, server_time_millis: i64, message_id: Option<&str>) -> (r: bool)
        ensures
            r == self.spec_matches_message(
                server_time_millis,
                match message_id {
                    Some(m) => Some(m@),
                    None => None,
                },
            ),
    {
        match self {
            MessageReference::Timestamp(ms) => *ms == server_time_millis,
            MessageReference::MessageId(id) => match message_id {
                Some(m) => str_eq(id.as_str(), m),
                None => false,
            },
            MessageReference::Absent => false,
        }
    }
}

// ---- timestamp fuzzing ----

pub open spec fn spec_fuzz_start(r: MessageReference) -> MessageReference {
    match r {
        MessageReference::Timestamp(ms) => MessageReference::Timestamp((ms - FUZZ_MILLIS) as i64),
        _ => r,
    }
}

pub open spec fn spec_fuzz_end(r: MessageReference) -> MessageReference {
    match r {
        MessageReference::Timestamp(ms) => MessageReference::Timestamp((ms + FUZZ_MILLIS) as i64),
        _ => r,
    }
}

/// Shifts a timestamp reference five seconds earlier; any other reference
/// passes through unchanged.
pub fn fuzz_start_message_reference(message_reference: MessageReference) -> (r: MessageReference)
    requires
        (match message_reference {
            MessageReference::Timestamp(ms) => ms - FUZZ_MILLIS >= i64::MIN,
            _ => true,
        }),
    ensures
        r == spec_fuzz_start(message_reference),
{
    match message_reference {
        MessageReference::Timestamp(start_server_time) => MessageReference::Timestamp(
            start_server_time - FUZZ_MILLIS,
        ),
        _ => message_reference,
    }
}

/// Shifts a timestamp reference five seconds later; any other reference
/// passes through unchanged.
pub fn fuzz_end_message_reference(message_reference: MessageReference) -> (r: MessageReference)
    requires
        (match message_reference {
            MessageReference::Timestamp(ms) => ms + FUZZ_MILLIS <= i64::MAX,
            _ => true,
        }),
    ensures
        r == spec_fuzz_end(message_reference),
{
    match message_reference {
        MessageReference::Timestamp(end_server_time) => MessageReference::Timestamp(
            end_server_time + FUZZ_MILLIS,
        ),
        _ => message_reference,
    }
}

/// When both references are timestamps, the chronologically earlier one is
/// fuzzed earlier and the later one later, whatever order the caller passed
/// them in: the window only ever widens. Otherwise both pass through.
pub open spec fn spec_fuzz_range(a: MessageReference, b: MessageReference) -> (
    MessageReference,
    MessageReference,
) {
    match (a, b) {
        (MessageReference::Timestamp(sa), MessageReference::Timestamp(sb)) => if sa < sb {
            (spec_fuzz_start(a), spec_fuzz_end(b))
        } else {
            (spec_fuzz_end(a), spec_fuzz_start(b))
        },
        _ => (a, b),
    }
}

/// Widens a requested range outward by the fuzz window; the two references
/// need not be passed in chronological order.
pub fn fuzz_message_reference_range(
    first_message_reference: MessageReference,
    second_message_reference: MessageReference,
) -> (r: (MessageReference, MessageReference))
    requires
        (match first_message_reference {
            MessageReference::Timestamp(ms) => i64::MIN + FUZZ_MILLIS <= ms <= i64::MAX
                - FUZZ_MILLIS,
            _ => true,
        }),
        (match second_message_reference {
            MessageReference::Timestamp(ms) => i64::MIN + FUZZ_MILLIS <= ms <= i64::MAX
                - FUZZ_MILLIS,
            _ => true,
        }),
    ensures
        r == spec_fuzz_range(first_message_reference, second_message_reference),
{
    let times: Option<(i64, i64)> = match (&first_message_reference, &second_message_reference) {
        (MessageReference::Timestamp(sa), MessageReference::Timestamp(sb)) => Some((*sa, *sb)),
        _ => None,
    };
    match times {
        Some((sa, sb)) => {
            if sa < sb {
                (
                    fuzz_start_message_reference(first_message_reference),
                    fuzz_end_message_reference(second_message_reference),
                )
            } else {
                (
                    fuzz_end_message_reference(first_message_reference),
                    fuzz_start_message_reference(second_message_reference),
                )
            }
        },
        None => (first_message_reference, second_message_reference),
    }
}

/// Swapping the two inputs of the range fuzz yields the same two output
/// references, up to swap, whenever both inputs are timestamps.
pub proof fn lemma_fuzz_range_order_insensitive(a: MessageReference, b: MessageReference)
    requires
        a is Timestamp,
        b is Timestamp,
    ensures
        ({
            let (x, y) = spec_fuzz_range(a, b);
            let (p, q) = spec_fuzz_range(b, a);
            (x == p && y == q) || (x == q && y == p)
        }),
{
}

// ---- CHATHISTORY subcommands and per-target state ----

/// One CHATHISTORY request: target(s), reference(s) and the requested page
/// limit, bounded by the server-advertised CHATHISTORY maximum.
#[derive(Clone, Debug, PartialEq)]
pub enum ChatHistorySubcommand {
    Latest(String, MessageReference, u16),
    Before(String, MessageReference, u16),
    Between(String, MessageReference, MessageReference, u16),
    Targets(MessageReference, MessageReference, u16),
}

impl ChatHistorySubcommand {
    pub open spec fn spec_target(&self) -> Option<Seq<char>> {
        match self {
            ChatHistorySubcommand::Latest(target, _, _) => Some(target@),
            ChatHistorySubcommand::Before(target, _, _) => Some(target@),
            ChatHistorySubcommand::Between(target, _, _, _) => Some(target@),
            ChatHistorySubcommand::Targets(_, _, _) => None,
        }
    }

    /// The addressed target; a `Targets` listing request addresses none.
    pub fn target(&self) -> (r: Option<&str>)
        ensures
            match r {
                Some(t) => self.spec_target() == Some(t@),
                None => self.spec_target() is None,
            },
    {
        match self {
            ChatHistorySubcommand::Latest(target, _, _) => Some(target.as_str()),
            ChatHistorySubcommand::Before(target, _, _) => Some(target.as_str()),
            ChatHistorySubcommand::Between(target, _, _, _) => Some(target.as_str()),
            ChatHistorySubcommand::Targets(_, _, _) => None,
        }
    }
}

/// The history-fetch state of one target: its history is exhausted, a
/// request is in flight, or a further request may be issued.
#[derive(Clone, Copy, Debug, Eq, PartialEq, Structural)]
pub enum ChatHistoryState {
    Exhausted,
    PendingRequest,
    Ready,
}

} // verus!
