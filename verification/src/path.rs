//! Paths as text: how a folder and a name inside it are put together.

use vstd::prelude::*;
use vstd::string::*;

verus! {

/// The character that parts the segments of a path.
pub const SEPARATOR: char = '/';

/// The path of `segment` inside `base`. One separator stands between the two,
/// unless `base` already ends in one. An empty `segment` names `base` itself,
/// and an empty `base` leaves `segment` as it is.
pub open spec fn joined(base: Seq<char>, segment: Seq<char>) -> Seq<char> {
    if base.len() == 0 || segment.len() == 0 || base.last() == '/' {
        base + segment
    } else {
        base + seq!['/'] + segment
    }
}

/// Inside one folder, two names that are not empty and differ have paths that
/// differ.
pub proof fn joined_tells_names_apart(base: Seq<char>, first: Seq<char>, second: Seq<char>)
    requires
        first.len() > 0,
        second.len() > 0,
        first != second,
    ensures
        joined(base, first) != joined(base, second),
{
    let lead = if base.len() == 0 || base.last() == '/' {
        base
    } else {
        base + seq!['/']
    };
    assert(joined(base, first) =~= lead + first);
    assert(joined(base, second) =~= lead + second);
    if lead + first == lead + second {
        assert((lead + first).skip(lead.len() as int) =~= first);
        assert((lead + second).skip(lead.len() as int) =~= second);
    }
}

/// Puts `segment` behind `base`, with a separator where one is needed.
pub fn join_path(base: &str, segment: &str) -> (path: String)
    ensures
        path@ == joined(base@, segment@),
{
    let mut path = base.to_owned();
    let n: usize = base.unicode_len();
    if n > 0 && !segment.is_empty() && base.get_char(n - 1) != SEPARATOR {
        proof {
            reveal_strlit("/");
        }
        path.append("/");
        assert(path@ =~= base@ + seq!['/']);
    }
    path.append(segment);
    path
}

} // verus!
