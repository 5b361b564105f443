//! What the server reads from its settings before it starts.

use crate::text::{chars_of, starts_with_at};
use vstd::prelude::*;

verus! {

/// The scheme of the address of a database that is a file: `sqlite:`.
pub open spec fn sqlite_scheme() -> Seq<char> {
    seq!['s', 'q', 'l', 'i', 't', 'e', ':']
}

/// `url` without the scheme, as often as it stands in front.
pub open spec fn without_scheme(url: Seq<char>) -> Seq<char>
    decreases url.len(),
{
    if sqlite_scheme().is_prefix_of(url) {
        without_scheme(url.skip(7))
    } else {
        url
    }
}

/// What is left once the scheme is taken off does not begin with it.
pub proof fn lemma_without_scheme_is_bare(url: Seq<char>)
    ensures
        !sqlite_scheme().is_prefix_of(without_scheme(url)),
        without_scheme(without_scheme(url)) == without_scheme(url),
    decreases url.len(),
{
    if sqlite_scheme().is_prefix_of(url) {
        lemma_without_scheme_is_bare(url.skip(7));
    }
}

/// The file behind the address of a database, which has to be there before
/// the database is opened: the address without its scheme, where the scheme
/// is `sqlite:`, taken off as often as it is repeated. An address of another
/// kind names no file.
pub fn database_file(db_url: &str) -> (r: Option<String>)
    ensures
        !sqlite_scheme().is_prefix_of(db_url@) ==> r is None,
        sqlite_scheme().is_prefix_of(db_url@) ==> (r matches Some(path) && path@
            == without_scheme(db_url@)),
{
    let text = chars_of(db_url);
    let scheme = chars_of("sqlite:");
    proof {
        reveal_strlit("sqlite:");
        assert(scheme@ =~= sqlite_scheme());
        assert(text@.skip(0) =~= text@);
    }
    if !starts_with_at(&text, 0, &scheme) {
        return None;
    }
    let n: usize = text.len();
    let mut from: usize = 0;
    while starts_with_at(&text, from, &scheme)
        invariant
            from <= n,
            n == text@.len(),
            scheme@ == sqlite_scheme(),
            without_scheme(text@) == without_scheme(text@.skip(from as int)),
        decreases n - from,
    {
        assert(text@.skip(from as int).skip(7) =~= text@.skip(from + 7));
        from += 7;
    }
    let path = db_url.substring_char(from, n);
    Some(path.to_owned())
}

} // verus!
