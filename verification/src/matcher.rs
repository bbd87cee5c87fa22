//! Case-insensitive prefix and suffix matching of an address against a pattern.

use vstd::prelude::*;
use vstd::string::StrSliceExecFns;

verus! {

/// Where in the address the pattern has to appear.
#[derive(Clone, Copy, Debug, PartialEq, Eq, Structural)]
pub enum VanityPosition {
    Prefix,
    Suffix,
}

impl VanityPosition {
    /// The name of a position on the wire.
    pub open spec fn name_text(self) -> Seq<char> {
        match self {
            VanityPosition::Prefix => "prefix"@,
            VanityPosition::Suffix => "suffix"@,
        }
    }

    /// The name of the position on the wire.
    pub fn name(&self) -> (r: String)
        ensures
            r@ == self.name_text(),
    {
        match self {
            VanityPosition::Prefix => "prefix".to_owned(),
            VanityPosition::Suffix => "suffix".to_owned(),
        }
    }
}

/// The character with an ASCII upper-case letter replaced by its lower-case
/// form; every other character is left as it is.
pub open spec fn fold_case(c: char) -> char {
    if 'A' <= c && c <= 'Z' {
        ((c as u32) + 32) as char
    } else {
        c
    }
}

/// `pattern` equals the `pattern.len()` characters of `address` that start at
/// `offset`, up to ASCII case.
pub open spec fn window_matches(address: Seq<char>, pattern: Seq<char>, offset: int) -> bool {
    &&& 0 <= offset
    &&& offset + pattern.len() <= address.len()
    &&& forall|i: int|
        0 <= i < pattern.len() ==> fold_case(#[trigger] address[offset + i]) == fold_case(
            pattern[i],
        )
}

/// The pattern matcher: the first (`Prefix`) or last (`Suffix`)
/// `pattern.len()` characters of `address` equal `pattern` up to ASCII case.
/// An address shorter than the pattern never matches.
pub open spec fn pattern_matches(
    address: Seq<char>,
    pattern: Seq<char>,
    position: VanityPosition,
) -> bool {
    match position {
        VanityPosition::Prefix => window_matches(address, pattern, 0),
        VanityPosition::Suffix => window_matches(
            address,
            pattern,
            address.len() - pattern.len(),
        ),
    }
}

/// Lower-cases one character if it is an ASCII upper-case letter.
pub fn fold_char(c: char) -> (r: char)
    ensures
        r == fold_case(c),
{
    if 'A' <= c && c <= 'Z' {
        let code: u32 = c as u32;
        let lowered: u8 = (code + 32) as u8;
        lowered as char
    } else {
        c
    }
}

/// Compares `pattern` with the window of `address` that starts at `offset`.
fn window_equal(address: &str, pattern: &str, offset: usize, width: usize) -> (r: bool)
    requires
        width == pattern@.len(),
        offset + width <= address@.len(),
        offset + width <= usize::MAX,
    ensures
        r == window_matches(address@, pattern@, offset as int),
{
    let mut i: usize = 0;
    while i < width
        invariant
            i <= width,
            width == pattern@.len(),
            offset + width <= address@.len(),
            offset + width <= usize::MAX,
            forall|j: int|
                0 <= j < i ==> fold_case(#[trigger] address@[offset + j]) == fold_case(
                    pattern@[j],
                ),
        decreases width - i,
    {
        let a = fold_char(address.get_char(offset + i));
        let p = fold_char(pattern.get_char(i));
        if a != p {
            return false;
        }
        i += 1;
    }
    true
}

/// Tests `address` against `pattern` at `position`, ignoring ASCII case.
pub fn matches(address: &str, pattern: &str, position: VanityPosition) -> (r: bool)
    ensures
        r == pattern_matches(address@, pattern@, position),
{
    let width = pattern.unicode_len();
    let total = address.unicode_len();
    if total < width {
        return false;
    }
    match position {
        VanityPosition::Prefix => window_equal(address, pattern, 0, width),
        VanityPosition::Suffix => window_equal(address, pattern, total - width, width),
    }
}

} // verus!
