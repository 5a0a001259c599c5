//! The violation formatter: translates a checker message that follows the
//! fixed convention `At <field path> with schema at <schema path>: <reason>`
//! into a field path and a reason, discarding the schema-path segment. The
//! committed parse is: the text must open with `At `; the field runs to the
//! first ` with schema at ` after it; the schema segment runs to the first
//! `: ` after that; the reason is the remainder. Every segment must be
//! nonempty, and a segment wrapped in one pair of double quotes is
//! unwrapped. A message outside this convention is rejected, and the caller
//! must abort loudly rather than emit a garbled diagnostic.

use crate::strutil::first_match_from;
use crate::strutil::is_match_at;
use crate::strutil::find_from;
use crate::strutil::match_at;
use vstd::prelude::*;
use vstd::string::*;

verus! {

/// Strips one pair of surrounding double quotes, when present.
pub open spec fn spec_unquote(s: Seq<char>) -> Seq<char> {
    if s.len() >= 2 && s[0] == '"' && s[s.len() - 1] == '"' {
        s.subrange(1, s.len() - 1)
    } else {
        s
    }
}

/// The `(field path, reason)` pair a convention message carries, or `None`
/// for a message outside the convention.
pub open spec fn spec_extract(m: Seq<char>) -> Option<(Seq<char>, Seq<char>)> {
    let head = "At "@;
    let mid = " with schema at "@;
    let colon = ": "@;
    if !is_match_at(m, head, 0) {
        None
    } else {
        match first_match_from(m, mid, head.len() as int) {
            None => None,
            Some(i) => if i <= head.len() {
                None
            } else {
                match first_match_from(m, colon, i + mid.len()) {
                    None => None,
                    Some(j) => if j <= i + mid.len() || j + colon.len() >= m.len() {
                        None
                    } else {
                        Some(
                            (
                                spec_unquote(m.subrange(head.len() as int, i)),
                                spec_unquote(m.subrange(j + colon.len(), m.len() as int)),
                            ),
                        )
                    },
                }
            },
        }
    }
}

/// Strips one pair of surrounding double quotes, when present.
pub fn unquote(s: &str) -> (r: String)
    ensures
        r@ == spec_unquote(s@),
{
    let n = s.unicode_len();
    if n >= 2 && s.get_char(0) == '"' && s.get_char(n - 1) == '"' {
        String::from_str(s.substring_char(1, n - 1))
    } else {
        String::from_str(s)
    }
}

/// Extracts the field path and the reason from a convention message;
/// `None` exactly on messages outside the convention.
pub fn extract(message: &str) -> (r: Option<(String, String)>)
    ensures
        r is Some <==> spec_extract(message@) is Some,
        r is Some ==> spec_extract(message@) == Some(((r->0).0@, (r->0).1@)),
{
    let head: &str = "At ";
    let mid: &str = " with schema at ";
    let colon: &str = ": ";
    let head_len = head.unicode_len();
    let mid_len = mid.unicode_len();
    let colon_len = colon.unicode_len();
    let m_len = message.unicode_len();
    if !match_at(message, head, 0) {
        return None;
    }
    let i = match find_from(message, mid, head_len) {
        None => {
            return None;
        },
        Some(i) => i,
    };
    if i <= head_len {
        return None;
    }
    let j = match find_from(message, colon, i + mid_len) {
        None => {
            return None;
        },
        Some(j) => j,
    };
    if j <= i + mid_len || j + colon_len >= m_len {
        return None;
    }
    let field = unquote(message.substring_char(head_len, i));
    let reason = unquote(message.substring_char(j + colon_len, m_len));
    Some((field, reason))
}

} // verus!
