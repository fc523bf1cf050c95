//! Settings that every request shares.

use vstd::prelude::*;
use vstd::string::*;

verus! {

/// `User-Agent` string used by default for all API requests.
pub const DEFAULT_USER_AGENT: &'static str = "iars <https://crates.io/crates/iars>";

/// The `User-Agent` in force for a caller's choice: the chosen string, or the
/// default where none or an empty one was chosen.
pub open spec fn effective_useragent(choice: Option<Seq<char>>) -> Seq<char> {
    match choice {
        Some(s) => if s.len() == 0 {
            DEFAULT_USER_AGENT@
        } else {
            s
        },
        None => DEFAULT_USER_AGENT@,
    }
}

/// The view of an optional string.
pub open spec fn text_of(choice: Option<String>) -> Option<Seq<char>> {
    match choice {
        Some(s) => Some(s@),
        None => None,
    }
}

/// Settles the `User-Agent` for a caller's choice.
pub fn useragent_or_default(choice: Option<String>) -> (r: String)
    ensures
        r@ == effective_useragent(text_of(choice)),
{
    match choice {
        Some(s) => {
            if s.as_str().is_empty() {
                String::from_str(DEFAULT_USER_AGENT)
            } else {
                s
            }
        },
        None => String::from_str(DEFAULT_USER_AGENT),
    }
}

} // verus!
