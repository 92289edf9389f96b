//! Quoting of words for a POSIX shell, for diagnostics.

use vstd::prelude::*;

verus! {

/// Characters that a shell word may hold without quoting.
pub open spec fn is_shell_safe(c: char) -> bool {
    ('a' <= c && c <= 'z') || ('A' <= c && c <= 'Z') || ('0' <= c && c <= '9') || c == '-'
        || c == '_' || c == '=' || c == '/' || c == ',' || c == '.' || c == '+'
}

/// A character inside single quotes: `'` and `!` leave the quotes and are escaped.
pub open spec fn quoted_char(c: char) -> Seq<char> {
    if c == '\'' || c == '!' {
        seq!['\'', '\\', c, '\'']
    } else {
        seq![c]
    }
}

pub open spec fn quoted_body(s: Seq<char>) -> Seq<char>
    decreases s.len(),
{
    if s.len() == 0 {
        Seq::empty()
    } else {
        quoted_body(s.drop_last()) + quoted_char(s.last())
    }
}

/// `s` as a single shell word: unchanged when it is non-empty and all its characters are safe,
/// otherwise within single quotes.
pub open spec fn shell_quoted(s: Seq<char>) -> Seq<char> {
    if s.len() > 0 && forall|i: int| 0 <= i < s.len() ==> is_shell_safe(#[trigger] s[i]) {
        s
    } else {
        seq!['\''] + quoted_body(s) + seq!['\'']
    }
}

/// Relies on shell_escape::unix::escape, which returns the word unchanged when it is non-empty
/// and only holds `a-z A-Z 0-9 - _ = / , . +`, and otherwise wraps it in single quotes, writing
/// each `'` or `!` as `'\` followed by the character and `'`.
#[verifier::external_body]
pub(crate) fn shell_escape(s: &str) -> (r: String)
    ensures
        r@ == shell_quoted(s@),
{
    shell_escape::unix::escape(std::borrow::Cow::Borrowed(s)).into_owned()
}

} // verus!
