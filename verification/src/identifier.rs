//! The syntax of item identifiers.

use vstd::prelude::*;
use vstd::string::*;

verus! {

/// An ASCII letter or digit.
pub open spec fn ascii_alphanumeric(c: char) -> bool {
    ('0' <= c && c <= '9') || ('a' <= c && c <= 'z') || ('A' <= c && c <= 'Z')
}

/// A character that may stand after the first place of an identifier.
pub open spec fn identifier_char(c: char) -> bool {
    ascii_alphanumeric(c) || c == '_' || c == '-' || c == '.'
}

/// An identifier is valid when it has between 1 and 100 characters, starts with
/// an ASCII letter or digit, and goes on with ASCII letters, digits,
/// underscores, dashes and periods only.
pub open spec fn valid_identifier(s: Seq<char>) -> bool {
    &&& 0 < s.len() <= 100
    &&& ascii_alphanumeric(s[0])
    &&& forall|i: int| 1 <= i < s.len() ==> identifier_char(#[trigger] s[i])
}

fn is_alphanumeric(c: char) -> (r: bool)
    ensures
        r == ascii_alphanumeric(c),
{
    ('0' <= c && c <= '9') || ('a' <= c && c <= 'z') || ('A' <= c && c <= 'Z')
}

/// Checks if the identifier string is valid.
pub fn validate_identifier(ident: &str) -> (ok: bool)
    ensures
        ok == valid_identifier(ident@),
{
    let n = ident.unicode_len();
    if n == 0 || n > 100 {
        return false;
    }
    if !is_alphanumeric(ident.get_char(0)) {
        return false;
    }
    let mut i: usize = 1;
    while i < n
        invariant
            1 <= i <= n,
            n == ident@.len(),
            forall|j: int| 1 <= j < i ==> identifier_char(#[trigger] ident@[j]),
        decreases n - i,
    {
        let c = ident.get_char(i);
        if !(is_alphanumeric(c) || c == '_' || c == '-' || c == '.') {
            return false;
        }
        i += 1;
    }
    true
}

} // verus!
