//! The name under which a project is exported: what a path segment may hold,
//! and how a project's name is turned into one.

use vstd::prelude::*;

verus! {

/// The character that takes the place of every character a name may not hold.
pub const FILLER: char = '_';

/// The characters that a sanitized name may hold: the letters `A` to `Z` and
/// `a` to `z`, the digits, `_` and `-`.
pub open spec fn is_name_char(c: char) -> bool {
    ||| 'a' <= c <= 'z'
    ||| 'A' <= c <= 'Z'
    ||| '0' <= c <= '9'
    ||| c == '_'
    ||| c == '-'
}

/// What one character of a project's name becomes.
pub open spec fn sanitized_char(c: char) -> char {
    if is_name_char(c) {
        c
    } else {
        '_'
    }
}

/// The sanitized form of a project's name: each character replaced on its own,
/// in place.
pub open spec fn sanitized(name: Seq<char>) -> Seq<char> {
    Seq::new(name.len(), |i: int| sanitized_char(name[i]))
}

/// Whether every character of `name` is one that a sanitized name may hold.
pub open spec fn is_sanitized(name: Seq<char>) -> bool {
    forall|i: int| 0 <= i < name.len() ==> is_name_char(#[trigger] name[i])
}

/// A sanitized name holds only characters that a name may hold, is as long as
/// the name it was made from, and has each character that a name may hold
/// where that name had it.
pub proof fn sanitized_is_safe(name: Seq<char>)
    ensures
        is_sanitized(sanitized(name)),
        sanitized(name).len() == name.len(),
        forall|i: int|
            0 <= i < name.len() && is_name_char(#[trigger] name[i]) ==> sanitized(name)[i]
                == name[i],
{
}

/// A name that holds only characters that a name may hold is its own
/// sanitized form; so to sanitize twice is to sanitize once.
pub proof fn sanitized_is_stable(name: Seq<char>)
    ensures
        is_sanitized(name) ==> sanitized(name) == name,
        sanitized(sanitized(name)) == sanitized(name),
{
    if is_sanitized(name) {
        assert(sanitized(name) =~= name);
    }
    assert(sanitized(sanitized(name)) =~= sanitized(name));
}

/// `String::push` of the standard library: the character is appended at the
/// end, and nothing else of the string changes.
pub assume_specification[ String::push ](s: &mut String, ch: char)
    ensures
        final(s)@ == old(s)@.push(ch),
;

/// Tells whether a sanitized name may hold `c`.
pub fn keeps_char(c: char) -> (kept: bool)
    ensures
        kept == is_name_char(c),
{
    ('a' <= c && c <= 'z') || ('A' <= c && c <= 'Z') || ('0' <= c && c <= '9') || c == '_' || c
        == '-'
}

/// Turns a project's name into a name that is safe as a path segment.
pub fn sanitize_name(project_name: &str) -> (name: String)
    ensures
        name@ == sanitized(project_name@),
        name@.len() == project_name@.len(),
        is_sanitized(name@),
        forall|i: int|
            0 <= i < project_name@.len() && is_name_char(#[trigger] project_name@[i]) ==> name@[i]
                == project_name@[i],
{
    let mut name = String::new();
    for c in it: project_name.chars()
        invariant
            it.seq() == project_name@,
            name@ == sanitized(project_name@.take(it.index() as int)),
    {
        let kept = if keeps_char(c) { c } else { FILLER };
        name.push(kept);
        assert(name@ =~= sanitized(project_name@.take(it.index() + 1)));
    }
    assert(project_name@.take(project_name@.len() as int) =~= project_name@);
    name
}

} // verus!
