//! Character-level string comparisons used by the lookups of this crate.

use vstd::prelude::*;
use vstd::string::*;

verus! {

/// `prefix` is the first part of `s`.
pub open spec fn has_prefix(s: Seq<char>, prefix: Seq<char>) -> bool {
    prefix.len() <= s.len() && s.subrange(0, prefix.len() as int) == prefix
}

/// Whether two strings hold the same characters.
pub fn str_eq(a: &str, b: &str) -> (res: bool)
    ensures
        res == (a@ == b@),
{
    let n = a.unicode_len();
    if n != b.unicode_len() {
        return false;
    }
    let mut i: usize = 0;
    while i < n
        invariant
            n == a@.len(),
            n == b@.len(),
            i <= n,
            forall|j: int| 0 <= j < i ==> a@[j] == b@[j],
        decreases n - i,
    {
        if a.get_char(i) != b.get_char(i) {
            return false;
        }
        i += 1;
    }
    assert(a@ =~= b@);
    true
}

/// Whether `s` begins with `prefix`.
pub fn starts_with(s: &str, prefix: &str) -> (res: bool)
    ensures
        res == has_prefix(s@, prefix@),
{
    let n = prefix.unicode_len();
    if n > s.unicode_len() {
        return false;
    }
    let mut i: usize = 0;
    while i < n
        invariant
            n == prefix@.len(),
            n <= s@.len(),
            i <= n,
            forall|j: int| 0 <= j < i ==> s@[j] == prefix@[j],
        decreases n - i,
    {
        if s.get_char(i) != prefix.get_char(i) {
            assert(s@.subrange(0, n as int)[i as int] != prefix@[i as int]);
            return false;
        }
        i += 1;
    }
    assert(s@.subrange(0, n as int) =~= prefix@);
    true
}

/// `s` without its leading `prefix`, or `None` when `s` does not begin with it.
pub fn strip_prefix<'a>(s: &'a str, prefix: &str) -> (res: Option<&'a str>)
    ensures
        match res {
            Some(rest) => has_prefix(s@, prefix@) && rest@ == s@.subrange(
                prefix@.len() as int,
                s@.len() as int,
            ),
            None => !has_prefix(s@, prefix@),
        },
{
    if starts_with(s, prefix) {
        let n = prefix.unicode_len();
        let len = s.unicode_len();
        Some(s.substring_char(n, len))
    } else {
        None
    }
}

} // verus!
