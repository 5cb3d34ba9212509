//! Strings that may cross the native boundary.
//!
//! The native dialog engine takes null-terminated byte strings.  An
//! application-supplied string holding an embedded terminator character can
//! therefore not be passed through and is rejected before any native resource
//! is touched.

use vstd::prelude::*;

verus! {

/// Whether the string holds an embedded terminator character, which makes it
/// unrepresentable as a null-terminated byte string.
pub open spec fn has_nul(s: Seq<char>) -> bool {
    exists|i: int| 0 <= i < s.len() && s[i] == '\0'
}

/// Decides whether `s` is free of embedded terminator characters and may
/// therefore cross the native boundary.
pub fn is_nul_free(s: &str) -> (r: bool)
    ensures
        r == !has_nul(s@),
{
    let n = s.unicode_len();
    let mut i: usize = 0;
    while i < n
        invariant
            n == s@.len(),
            i <= n,
            forall|j: int| 0 <= j < i ==> s@[j] != '\0',
        decreases n - i,
    {
        if s.get_char(i) == '\0' {
            return false;
        }
        i = i + 1;
    }
    true
}

} // verus!
