//! Predicates on strings.

use vstd::prelude::*;

verus! {

/// Whether `s` holds no character at all. A string of spaces is not blank.
pub fn is_blank(s: String) -> (blank: bool)
    ensures
        blank == (s@.len() == 0),
{
    s.as_str().is_empty()
}

/// Whether `s` holds at least one character.
pub fn is_not_blank(s: String) -> (filled: bool)
    ensures
        filled == (s@.len() > 0),
{
    !s.as_str().is_empty()
}

} // verus!
