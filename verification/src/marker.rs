//! The naming convention for components whose diameter depends on temperature.
//!
//! Such a component is not told by a field of its record but by its name: the
//! name holds the marker token.

use vstd::prelude::*;

verus! {

/// The marker token, `sigma_t`.
pub open spec fn marker() -> Seq<char> {
    seq!['s', 'i', 'g', 'm', 'a', '_', 't']
}

/// Some window of `text` equals `pattern`.
pub open spec fn occurs_in(pattern: Seq<char>, text: Seq<char>) -> bool {
    exists|i: int|
        0 <= i && i + pattern.len() <= text.len() && #[trigger] text.subrange(
            i,
            i + pattern.len(),
        ) == pattern
}

/// The name is present and holds the marker token.
pub open spec fn marked(name: Option<String>) -> bool {
    match name {
        Some(s) => occurs_in(marker(), s@),
        None => false,
    }
}

/// `str::contains` with a string as the pattern: whether the pattern matches a
/// part of the text, which is whether the characters of the pattern occur in the
/// text one after the other.
#[verifier::external_body]
fn str_contains(text: &str, pattern: &str) -> (r: bool)
    ensures
        r == occurs_in(pattern@, text@),
{
    text.contains(pattern)
}

/// Tests whether the name is present and holds the marker token.
pub fn is_marked(name: &Option<String>) -> (r: bool)
    ensures
        r == marked(*name),
{
    match name {
        Some(s) => {
            proof {
                reveal_strlit("sigma_t");
                assert("sigma_t"@ =~= marker());
            }
            str_contains(s.as_str(), "sigma_t")
        },
        None => false,
    }
}

} // verus!
