//! Token-scoped failure reasons. Every failure is descriptive and non-fatal:
//! the caller skips the offending token and continues with the rest of the
//! advertisement line.

use vstd::prelude::*;

verus! {

#[derive(Clone, Copy, Debug, PartialEq, Eq, Structural)]
pub enum ErrorReason {
    EmptyToken,
    UnknownParameter,
    ValueRequired,
    ValuesRequired,
    NoValidAccountExtendedBanMasks,
    UnknownCaseMapping,
    NoValidChannelLimits,
    NoValidChannelModes,
    InvalidClientVersion,
    InvalidSearchExtensions,
    NoValidExtendedBanMasks,
    InvalidExtendedBanPrefix,
    InvalidExtendedBanTypes,
    NoValidModesLimits,
    UnrecognizedPrefixFormat,
    NoValidClientTagDenials,
    NoValidCommandTargetLimits,
    LettersRequiredIfSpecified,
    OptionalPositiveIntegerRequired,
    LetterRequired,
    LettersRequired,
    PositiveIntegerRequired,
    WhoTokenFormat,
}

impl ErrorReason {
    /// The descriptive reason, as reported to the user.
    pub fn message(&self) -> (r: &'static str)
        ensures
            r@ == self.spec_message(),
    {
        match self {
            ErrorReason::EmptyToken => "empty ISUPPORT token not allowed",
            ErrorReason::UnknownParameter => "unknown ISUPPORT parameter",
            ErrorReason::ValueRequired => "value required",
            ErrorReason::ValuesRequired => "value(s) required",
            ErrorReason::NoValidAccountExtendedBanMasks => "no valid account-based extended ban masks",
            ErrorReason::UnknownCaseMapping => "unknown casemapping",
            ErrorReason::NoValidChannelLimits => "no valid channel limits",
            ErrorReason::NoValidChannelModes => "no valid channel modes",
            ErrorReason::InvalidClientVersion => "value must be a <major>.<minor> version number",
            ErrorReason::InvalidSearchExtensions => "value required to only contain valid search extensions",
            ErrorReason::NoValidExtendedBanMasks => "no valid extended ban masks",
            ErrorReason::InvalidExtendedBanPrefix => "invalid extended ban prefix(es)",
            ErrorReason::InvalidExtendedBanTypes => "invalid extended ban type(s)",
            ErrorReason::NoValidModesLimits => "no valid modes limits",
            ErrorReason::UnrecognizedPrefixFormat => "unrecognized PREFIX format",
            ErrorReason::NoValidClientTagDenials => "no valid client tag denials",
            ErrorReason::NoValidCommandTargetLimits => "no valid command target limits",
            ErrorReason::LettersRequiredIfSpecified => "value required to be letter(s) if specified",
            ErrorReason::OptionalPositiveIntegerRequired => "optional value must be a positive integer if specified",
            ErrorReason::LetterRequired => "value required to be a letter",
            ErrorReason::LettersRequired => "value required to be letter(s)",
            ErrorReason::PositiveIntegerRequired => "value required to be a positive integer",
            ErrorReason::WhoTokenFormat => "WHO token must be 1-3 ASCII digits",
        }
    }

    pub open spec fn spec_message(&self) -> Seq<char> {
        match self {
            ErrorReason::EmptyToken => "empty ISUPPORT token not allowed"@,
            ErrorReason::UnknownParameter => "unknown ISUPPORT parameter"@,
            ErrorReason::ValueRequired => "value required"@,
            ErrorReason::ValuesRequired => "value(s) required"@,
            ErrorReason::NoValidAccountExtendedBanMasks => "no valid account-based extended ban masks"@,
            ErrorReason::UnknownCaseMapping => "unknown casemapping"@,
            ErrorReason::NoValidChannelLimits => "no valid channel limits"@,
            ErrorReason::NoValidChannelModes => "no valid channel modes"@,
            ErrorReason::InvalidClientVersion => "value must be a <major>.<minor> version number"@,
            ErrorReason::InvalidSearchExtensions => "value required to only contain valid search extensions"@,
            ErrorReason::NoValidExtendedBanMasks => "no valid extended ban masks"@,
            ErrorReason::InvalidExtendedBanPrefix => "invalid extended ban prefix(es)"@,
            ErrorReason::InvalidExtendedBanTypes => "invalid extended ban type(s)"@,
            ErrorReason::NoValidModesLimits => "no valid modes limits"@,
            ErrorReason::UnrecognizedPrefixFormat => "unrecognized PREFIX format"@,
            ErrorReason::NoValidClientTagDenials => "no valid client tag denials"@,
            ErrorReason::NoValidCommandTargetLimits => "no valid command target limits"@,
            ErrorReason::LettersRequiredIfSpecified => "value required to be letter(s) if specified"@,
            ErrorReason::OptionalPositiveIntegerRequired => "optional value must be a positive integer if specified"@,
            ErrorReason::LetterRequired => "value required to be a letter"@,
            ErrorReason::LettersRequired => "value required to be letter(s)"@,
            ErrorReason::PositiveIntegerRequired => "value required to be a positive integer"@,
            ErrorReason::WhoTokenFormat => "WHO token must be 1-3 ASCII digits"@,
        }
    }
}

} // verus!
