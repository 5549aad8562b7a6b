//! Small verified helpers over strings: prefix tests and package-name
//! extraction from a `name@version` reference.

use vstd::prelude::*;
use vstd::string::StrSliceExecFns;

verus! {

/// `p` is a prefix of `s`.
pub open spec fn has_prefix(s: Seq<char>, p: Seq<char>) -> bool {
    s.len() >= p.len() && s.take(p.len() as int) == p
}

/// Whether `s` starts with `p`, character by character.
pub fn str_starts_with(s: &str, p: &str) -> (b: bool)
    ensures
        b == has_prefix(s@, p@),
{
    let n = p.unicode_len();
    let m = s.unicode_len();
    if m < n {
        return false;
    }
    let mut i: usize = 0;
    while i < n
        invariant
            n == p@.len(),
            m == s@.len(),
            n <= m,
            0 <= i <= n,
            forall|j: int| 0 <= j < i ==> s@[j] == p@[j],
        decreases n - i,
    {
        if s.get_char(i) != p.get_char(i) {
            proof {
                if has_prefix(s@, p@) {
                    assert(s@.take(p@.len() as int)[i as int] == s@[i as int]);
                    assert(s@.take(p@.len() as int)[i as int] == p@[i as int]);
                }
            }
            return false;
        }
        i += 1;
    }
    proof {
        assert(s@.take(p@.len() as int) =~= p@);
    }
    true
}

/// The index of the first `'@'` in `s` at or after `from`, if any.
pub open spec fn first_at(s: Seq<char>, from: int) -> Option<int>
    decreases s.len() - from,
{
    if from < 0 || from >= s.len() {
        None
    } else if s[from] == '@' {
        Some(from)
    } else {
        first_at(s, from + 1)
    }
}

/// The package name within a `name@version` reference: everything before
/// the version separator.  A reference beginning with `'@'` is a scoped
/// name, so its version separator is the second `'@'` in the string;
/// otherwise it is the first.  A reference without a separator is already
/// a bare name and is returned unchanged.
pub open spec fn spec_package_name(s: Seq<char>) -> Seq<char> {
    let begin: int = if s.len() > 0 && s[0] == '@' {
        1
    } else {
        0
    };
    match first_at(s, begin) {
        Some(i) => s.take(i),
        None => s,
    }
}

/// Extract the package name from a `name@version` reference.
pub fn package_name(reference: &str) -> (r: String)
    ensures
        r@ == spec_package_name(reference@),
{
    let n = reference.unicode_len();
    let begin: usize = if n > 0 && reference.get_char(0) == '@' {
        1
    } else {
        0
    };
    let mut i: usize = begin;
    while i < n
        invariant
            n == reference@.len(),
            begin <= i,
            0 <= i <= n,
            begin == if n > 0 && reference@[0] == '@' {
                1int
            } else {
                0int
            },
            first_at(reference@, begin as int) == first_at(reference@, i as int),
        decreases n - i,
    {
        if reference.get_char(i) == '@' {
            let prefix = reference.substring_char(0, i);
            return prefix.to_owned();
        }
        i += 1;
    }
    reference.to_owned()
}

} // verus!
