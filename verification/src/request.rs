//! Search requests and their validation.

use vstd::prelude::*;
use vstd::string::StrSliceExecFns;
use crate::matcher::fold_case;
use crate::matcher::window_matches;
use crate::matcher::VanityPosition;
use crate::text::text_equal;

verus! {

/// Fewest characters a pattern may have.
pub const MIN_PATTERN_LEN: usize = 3;

/// Most characters a pattern may have.
pub const MAX_PATTERN_LEN: usize = 8;

/// What to search for: a pattern and the end of the address it must sit at.
#[derive(Debug, PartialEq, Eq)]
pub struct VanityRequest {
    pub pattern: String,
    pub position: VanityPosition,
}

/// The mathematical content of a request.
pub struct RequestView {
    pub pattern: Seq<char>,
    pub position: VanityPosition,
}

impl View for VanityRequest {
    type V = RequestView;

    open spec fn view(&self) -> RequestView {
        RequestView { pattern: self.pattern@, position: self.position }
    }
}

impl Clone for VanityRequest {
    fn clone(&self) -> (r: Self)
        ensures
            r@ == self@,
    {
        VanityRequest { pattern: self.pattern.clone(), position: self.position }
    }
}

/// Why a request was turned down.
#[derive(Clone, Copy, Debug, PartialEq, Eq, Structural)]
pub enum RequestError {
    /// The pattern has no characters.
    EmptyPattern,
    /// The pattern has characters, but fewer than `MIN_PATTERN_LEN`.
    PatternTooShort,
    /// The pattern has more than `MAX_PATTERN_LEN` characters.
    PatternTooLong,
    /// The position is neither `prefix` nor `suffix`.
    UnknownPosition,
}

/// The first fault of a pattern, if it has one. An empty pattern is a fault
/// of its own, judged before the bounds.
pub open spec fn pattern_fault(pattern: Seq<char>) -> Option<RequestError> {
    if pattern.len() == 0 {
        Some(RequestError::EmptyPattern)
    } else if pattern.len() < MIN_PATTERN_LEN {
        Some(RequestError::PatternTooShort)
    } else if pattern.len() > MAX_PATTERN_LEN {
        Some(RequestError::PatternTooLong)
    } else {
        None
    }
}

/// The position that a word names: `prefix` or `suffix`, exactly.
pub open spec fn position_named(word: Seq<char>) -> Option<VanityPosition> {
    if word == "prefix"@ {
        Some(VanityPosition::Prefix)
    } else if word == "suffix"@ {
        Some(VanityPosition::Suffix)
    } else {
        None
    }
}

/// Two words are the same up to ASCII case.
pub open spec fn same_word(a: Seq<char>, b: Seq<char>) -> bool {
    a.len() == b.len() && window_matches(a, b, 0)
}

/// The position that a word names when case is ignored.
pub open spec fn position_named_any_case(word: Seq<char>) -> Option<VanityPosition> {
    if same_word(word, "prefix"@) {
        Some(VanityPosition::Prefix)
    } else if same_word(word, "suffix"@) {
        Some(VanityPosition::Suffix)
    } else {
        None
    }
}

/// The outcome of validating a pattern and a position word: the pattern is
/// judged first, then the position.
pub open spec fn parsed_request(pattern: Seq<char>, word: Seq<char>) -> Result<
    RequestView,
    RequestError,
> {
    match pattern_fault(pattern) {
        Some(e) => Err(e),
        None => match position_named(word) {
            Some(position) => Ok(RequestView { pattern, position }),
            None => Err(RequestError::UnknownPosition),
        },
    }
}

/// A position is read back from its own name, exactly and in any case.
pub proof fn position_name_round_trip(position: VanityPosition)
    ensures
        position_named(position.name_text()) == Some(position),
        position_named_any_case(position.name_text()) == Some(position),
{
    reveal_strlit("prefix");
    reveal_strlit("suffix");
    assert("suffix"@[0] != "prefix"@[0]);
    assert(fold_case("suffix"@[0int + 0]) != fold_case("prefix"@[0]));
}

/// Checks that a pattern is not empty and has between `MIN_PATTERN_LEN` and
/// `MAX_PATTERN_LEN` characters.
pub fn validate_pattern(pattern: &str) -> (r: Result<(), RequestError>)
    ensures
        r == match pattern_fault(pattern@) {
            Some(e) => Err::<(), RequestError>(e),
            None => Ok(()),
        },
{
    let n = pattern.unicode_len();
    if n == 0 {
        Err(RequestError::EmptyPattern)
    } else if n < MIN_PATTERN_LEN {
        Err(RequestError::PatternTooShort)
    } else if n > MAX_PATTERN_LEN {
        Err(RequestError::PatternTooLong)
    } else {
        Ok(())
    }
}

/// Reads a position from its name.
pub fn parse_position(word: &str) -> (r: Result<VanityPosition, RequestError>)
    ensures
        r == match position_named(word@) {
            Some(p) => Ok::<VanityPosition, RequestError>(p),
            None => Err(RequestError::UnknownPosition),
        },
{
    if text_equal(word, "prefix") {
        Ok(VanityPosition::Prefix)
    } else if text_equal(word, "suffix") {
        Ok(VanityPosition::Suffix)
    } else {
        Err(RequestError::UnknownPosition)
    }
}

/// Decides whether two words are the same up to ASCII case.
pub fn is_same_word(a: &str, b: &str) -> (r: bool)
    ensures
        r == same_word(a@, b@),
{
    if a.unicode_len() != b.unicode_len() {
        false
    } else {
        crate::matcher::matches(a, b, VanityPosition::Prefix)
    }
}

/// Reads a position from its name, in any mix of upper and lower case.
pub fn parse_position_any_case(word: &str) -> (r: Result<VanityPosition, RequestError>)
    ensures
        r == match position_named_any_case(word@) {
            Some(p) => Ok::<VanityPosition, RequestError>(p),
            None => Err(RequestError::UnknownPosition),
        },
{
    if is_same_word(word, "prefix") {
        Ok(VanityPosition::Prefix)
    } else if is_same_word(word, "suffix") {
        Ok(VanityPosition::Suffix)
    } else {
        Err(RequestError::UnknownPosition)
    }
}

impl RequestError {
    /// The text shown to a caller for this error.
    pub open spec fn message_text(self) -> Seq<char> {
        match self {
            RequestError::EmptyPattern => "Pattern cannot be empty"@,
            RequestError::PatternTooShort | RequestError::PatternTooLong =>
                "Pattern must be between 3 and 8 characters long"@,
            RequestError::UnknownPosition => "Position must be 'prefix' or 'suffix'"@,
        }
    }

    /// The text shown to a caller for this error.
    pub fn message(&self) -> (r: String)
        ensures
            r@ == self.message_text(),
    {
        match self {
            RequestError::EmptyPattern => "Pattern cannot be empty".to_owned(),
            RequestError::PatternTooShort | RequestError::PatternTooLong =>
                "Pattern must be between 3 and 8 characters long".to_owned(),
            RequestError::UnknownPosition => "Position must be 'prefix' or 'suffix'".to_owned(),
        }
    }
}

impl VanityRequest {
    /// Whether the request is one the engine accepts.
    pub open spec fn valid(&self) -> bool {
        pattern_fault(self.pattern@) is None
    }

    /// Validates a pattern and a position word and builds the request.
    pub fn parse(pattern: &str, word: &str) -> (r: Result<VanityRequest, RequestError>)
        ensures
            match parsed_request(pattern@, word@) {
                Ok(v) => r is Ok && r->Ok_0@ == v,
                Err(e) => r == Err::<VanityRequest, RequestError>(e),
            },
    {
        match validate_pattern(pattern) {
            Err(e) => Err(e),
            Ok(()) => match parse_position(word) {
                Err(e) => Err(e),
                Ok(position) => Ok(VanityRequest { pattern: pattern.to_owned(), position }),
            },
        }
    }

    /// Validates a pattern and a position word given in any mix of upper
    /// and lower case, and builds the request.
    pub fn parse_any_case(pattern: &str, word: &str) -> (r: Result<VanityRequest, RequestError>)
        ensures
            match pattern_fault(pattern@) {
                Some(e) => r == Err::<VanityRequest, RequestError>(e),
                None => match position_named_any_case(word@) {
                    Some(position) => r is Ok && r->Ok_0@ == (RequestView {
                        pattern: pattern@,
                        position,
                    }),
                    None => r == Err::<VanityRequest, RequestError>(RequestError::UnknownPosition),
                },
            },
    {
        match validate_pattern(pattern) {
            Err(e) => Err(e),
            Ok(()) => match parse_position_any_case(word) {
                Err(e) => Err(e),
                Ok(position) => Ok(VanityRequest { pattern: pattern.to_owned(), position }),
            },
        }
    }

    /// Checks a request that was built field by field.
    pub fn validate(&self) -> (r: Result<(), RequestError>)
        ensures
            r == match pattern_fault(self.pattern@) {
                Some(e) => Err::<(), RequestError>(e),
                None => Ok(()),
            },
    {
        validate_pattern(self.pattern.as_str())
    }
}

} // verus!
