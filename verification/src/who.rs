//! WHO/WHOX correlation: the fixed 1–3 digit token echoed in WHOX replies,
//! and the two canned polling configurations whose distinct tokens let a
//! caller tell which request shape produced an incoming reply line.

use vstd::prelude::*;
use vstd::string::*;
use crate::error::ErrorReason;
use crate::numbers::spec_all_digits;
use crate::text::{is_ascii_digit_char, push_char, spec_is_ascii_digit};

verus! {

/// A fixed three-slot ASCII-digit identifier; unused slots hold `'\0'` and
/// are trimmed when the token is rendered.
#[derive(Clone, Copy, Debug, Eq, PartialEq)]
pub struct WhoToken {
    digits: [char; 3],
}

/// A token's digit slots padded with `'\0'` to three.
pub open spec fn spec_who_token_of(s: Seq<char>) -> Seq<char> {
    s + Seq::new((3 - s.len()) as nat, |i: int| '\0')
}

impl View for WhoToken {
    type V = Seq<char>;

    closed spec fn view(&self) -> Seq<char> {
        self.digits@
    }
}

impl WhoToken {
    /// The rendered token: the used digit slots, in order.
    pub fn to_owned(self) -> (r: String)
        ensures
            r@ == self.spec_text(),
    {
        let mut out = String::new();
        if self.digits[0] != '\0' {
            push_char(&mut out, self.digits[0]);
        }
        if self.digits[1] != '\0' {
            push_char(&mut out, self.digits[1]);
        }
        if self.digits[2] != '\0' {
            push_char(&mut out, self.digits[2]);
        }
        proof {
            assert(out@ =~= self.spec_text());
        }
        out
    }

    pub open spec fn spec_text(&self) -> Seq<char> {
        (if self@[0] != '\0' {
            seq![self@[0]]
        } else {
            Seq::empty()
        }) + (if self@[1] != '\0' {
            seq![self@[1]]
        } else {
            Seq::empty()
        }) + (if self@[2] != '\0' {
            seq![self@[2]]
        } else {
            Seq::empty()
        })
    }

    /// Parses a correlation token of one to three ASCII digits.
    pub fn parse(token: &str) -> (r: Result<WhoToken, ErrorReason>)
        ensures
            match r {
                Ok(t) => 1 <= token@.len() <= 3 && spec_all_digits(token@) && t@
                    == spec_who_token_of(token@),
                Err(e) => (!(1 <= token@.len() <= 3) || !spec_all_digits(token@)) && e
                    == ErrorReason::WhoTokenFormat,
            },
    {
        let n = token.unicode_len();
        if n < 1 || n > 3 {
            return Err(ErrorReason::WhoTokenFormat);
        }
        let mut i: usize = 0;
        while i < n
            invariant
                n == token@.len(),
                0 <= i <= n,
                forall|j: int| 0 <= j < i ==> spec_is_ascii_digit(token@[j]),
            decreases n - i,
        {
            if !is_ascii_digit_char(token.get_char(i)) {
                proof {
                    assert(!spec_all_digits(token@));
                }
                return Err(ErrorReason::WhoTokenFormat);
            }
            i += 1;
        }
        let digits: [char; 3] = if n == 1 {
            [token.get_char(0), '\0', '\0']
        } else if n == 2 {
            [token.get_char(0), token.get_char(1), '\0']
        } else {
            [token.get_char(0), token.get_char(1), token.get_char(2)]
        };
        let t = WhoToken { digits };
        proof {
            assert(t@ =~= spec_who_token_of(token@));
        }
        Ok(t)
    }
}

/// The two canned WHOX polling configurations. Their tokens differ, so the
/// echoed token alone tells which request shape produced a reply.
pub enum WhoXPollParameters {
    Default,
    WithAccountName,
}

impl WhoXPollParameters {
    /// The WHOX field selector this configuration requests.
    pub fn fields(&self) -> (r: &'static str)
        ensures
            r@ == self.spec_fields(),
    {
        match self {
            WhoXPollParameters::Default => "tcnf",
            WhoXPollParameters::WithAccountName => "tcnfa",
        }
    }

    pub open spec fn spec_fields(&self) -> Seq<char> {
        match self {
            WhoXPollParameters::Default => "tcnf"@,
            WhoXPollParameters::WithAccountName => "tcnfa"@,
        }
    }

    /// The correlation token this configuration embeds in its requests.
    pub fn token(&self) -> (r: WhoToken)
        ensures
            r@ == self.spec_token(),
    {
        let t = match self {
            WhoXPollParameters::Default => WhoToken { digits: ['9', '\0', '\0'] },
            WhoXPollParameters::WithAccountName => WhoToken { digits: ['9', '9', '\0'] },
        };
        proof {
            assert(t@ =~= self.spec_token());
        }
        t
    }

    pub open spec fn spec_token(&self) -> Seq<char> {
        match self {
            WhoXPollParameters::Default => seq!['9', '\0', '\0'],
            WhoXPollParameters::WithAccountName => seq!['9', '9', '\0'],
        }
    }
}

} // verus!
