//! Text as sequences of characters: the few scans that the checks need.

use vstd::prelude::*;

verus! {

/// The characters of `s`, in order.
pub fn chars_of(s: &str) -> (v: Vec<char>)
    ensures
        v@ == s@,
{
    let mut v: Vec<char> = Vec::new();
    for c in it: s.chars()
        invariant
            it.seq() == s@,
            v@ == it.seq().take(it.index() as int),
    {
        v.push(c);
    }
    v
}

/// Whether `text`, read from position `from` on, begins with `pattern`. A
/// position past the end of `text` has nothing to read.
pub fn starts_with_at(text: &Vec<char>, from: usize, pattern: &Vec<char>) -> (b: bool)
    ensures
        b == (from <= text@.len() && pattern@.is_prefix_of(text@.skip(from as int))),
{
    let ghost rest = text@.skip(from as int);
    let n: usize = pattern.len();
    if from > text.len() || text.len() - from < n {
        return false;
    }
    let mut i: usize = 0;
    while i < n
        invariant
            i <= n,
            n == pattern@.len(),
            from + n <= text.len(),
            rest == text@.skip(from as int),
            forall|j: int| 0 <= j < i ==> pattern@[j] == rest[j],
        decreases n - i,
    {
        if text[from + i] != pattern[i] {
            assert(rest[i as int] != pattern@[i as int]);
            assert(rest.subrange(0, n as int)[i as int] == rest[i as int]);
            return false;
        }
        i += 1;
    }
    assert(pattern@ =~= rest.subrange(0, n as int));
    true
}

} // verus!
