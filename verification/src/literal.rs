//! Character and string literals: what stands between the quotes, and the
//! value of a character literal.

use vstd::prelude::*;
use regex::Regex;
use crate::error::CompileError;

verus! {

/// The pattern of a character literal: a quote, one or more characters, a
/// quote.
pub open spec fn char_pattern() -> Seq<char> {
    "'(.+)'"@
}

/// The pattern of a string literal: a double quote, one or more characters,
/// a double quote.
pub open spec fn string_pattern() -> Seq<char> {
    "\"(.+)\""@
}

/// What the first group of the regular expression `pattern` captures in the
/// leftmost match within `text`, or nothing where `text` holds no match.
pub uninterp spec fn regex_first_group(pattern: Seq<char>, text: Seq<char>) -> Option<Seq<char>>;

/// `Regex::new`, `Regex::captures` and the index of a capture group, for the
/// two patterns of literals: the text of the first group in the leftmost
/// match of `pattern` within `text`. Both patterns compile, and their group
/// takes part in every match.
#[verifier::external_body]
fn first_group(pattern: &str, text: &str) -> (r: Option<String>)
    requires
        pattern@ == char_pattern() || pattern@ == string_pattern(),
    ensures
        match r {
            Some(s) => regex_first_group(pattern@, text@) == Some(s@),
            None => regex_first_group(pattern@, text@).is_none(),
        },
{
    let re = Regex::new(pattern).unwrap();
    match re.captures(text) {
        Some(groups) => Some(groups[1].to_string()),
        None => None,
    }
}

/// The value of the character literal whose quotes enclose `inner`: the code
/// of a single character, 10 for `\n`, 9 for `\t`; nothing else is a
/// character literal.
pub open spec fn char_value(inner: Seq<char>) -> Result<u32, CompileError> {
    if inner.len() == 1 {
        Ok(inner[0] as u32)
    } else if inner.len() == 2 && inner[0] == '\\' && inner[1] == 'n' {
        Ok(10u32)
    } else if inner.len() == 2 && inner[0] == '\\' && inner[1] == 't' {
        Ok(9u32)
    } else {
        Err(CompileError::InvalidCharLiteral)
    }
}

/// The value of the character literal `text`, quotes included.
pub open spec fn char_literal(text: Seq<char>) -> Result<u32, CompileError> {
    match regex_first_group(char_pattern(), text) {
        Some(inner) => char_value(inner),
        None => Err(CompileError::InvalidCharLiteral),
    }
}

/// The content of the string literal `text`, quotes included.
pub open spec fn string_literal(text: Seq<char>) -> Result<Seq<char>, CompileError> {
    match regex_first_group(string_pattern(), text) {
        Some(inner) => Ok(inner),
        None => Err(CompileError::InvalidStringLiteral),
    }
}

/// The value of the character literal whose quotes enclose `inner`.
pub fn char_literal_value(inner: &str) -> (r: Result<u32, CompileError>)
    ensures
        r == char_value(inner@),
{
    let n = inner.unicode_len();
    if n == 1 {
        Ok(inner.get_char(0) as u32)
    } else if n == 2 && inner.get_char(0) == '\\' {
        let escaped = inner.get_char(1);
        if escaped == 'n' {
            Ok(10)
        } else if escaped == 't' {
            Ok(9)
        } else {
            Err(CompileError::InvalidCharLiteral)
        }
    } else {
        Err(CompileError::InvalidCharLiteral)
    }
}

/// The value of the character literal `text`, quotes included.
pub fn parse_char_literal(text: &str) -> (r: Result<u32, CompileError>)
    ensures
        r == char_literal(text@),
{
    match first_group("'(.+)'", text) {
        Some(inner) => char_literal_value(inner.as_str()),
        None => Err(CompileError::InvalidCharLiteral),
    }
}

/// The content of the string literal `text`, quotes included.
pub fn parse_string_literal(text: &str) -> (r: Result<String, CompileError>)
    ensures
        match r {
            Ok(s) => string_literal(text@) == Ok::<Seq<char>, CompileError>(s@),
            Err(e) => string_literal(text@) == Err::<Seq<char>, CompileError>(e),
        },
{
    match first_group("\"(.+)\"", text) {
        Some(inner) => Ok(inner),
        None => Err(CompileError::InvalidStringLiteral),
    }
}

} // verus!
