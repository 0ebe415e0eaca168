//! Syntactic checks on the parameters of a command. They need nothing but
//! the parameter itself, so they run before any connection is attempted.

use vstd::prelude::*;

verus! {

/// A printable ASCII character other than the space.
pub open spec fn is_visible_ascii(c: char) -> bool {
    '!' <= c <= '~'
}

/// A task identifier is well formed when it is not empty and holds only
/// printable ASCII characters, none of them a space.
pub open spec fn task_id_well_formed(id: Seq<char>) -> bool {
    &&& id.len() > 0
    &&& forall|i: int| 0 <= i < id.len() ==> is_visible_ascii(#[trigger] id[i])
}

/// A source path is well formed when it is not empty and holds no NUL
/// character, the two things no path of the filesystem can be.
pub open spec fn source_path_well_formed(path: Seq<char>) -> bool {
    &&& path.len() > 0
    &&& forall|i: int| 0 <= i < path.len() ==> #[trigger] path[i] != '\0'
}

/// Decides whether `id` is a well-formed task identifier.
pub fn is_well_formed_task_id(id: &str) -> (ok: bool)
    ensures
        ok == task_id_well_formed(id@),
{
    let mut visible = true;
    let mut any = false;
    for c in it: id.chars()
        invariant
            it.seq() == id@,
            any == (it.index() > 0),
            visible == (forall|i: int| 0 <= i < it.index() ==> is_visible_ascii(#[trigger] id@[i])),
    {
        any = true;
        if c < '!' || c > '~' {
            visible = false;
        }
    }
    any && visible
}

/// Decides whether `path` is a well-formed source path.
pub fn is_well_formed_source_path(path: &str) -> (ok: bool)
    ensures
        ok == source_path_well_formed(path@),
{
    let mut clean = true;
    let mut any = false;
    for c in it: path.chars()
        invariant
            it.seq() == path@,
            any == (it.index() > 0),
            clean == (forall|i: int| 0 <= i < it.index() ==> #[trigger] path@[i] != '\0'),
    {
        any = true;
        if c == '\0' {
            clean = false;
        }
    }
    any && clean
}

} // verus!
