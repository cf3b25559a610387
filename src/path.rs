use vstd::prelude::*;
use crate::error::ReadImageError;

verus! {

/// `s[i..i+2]` is a `..` segment: delimited by `/` or by either end of `s`.
pub open spec fn parent_segment_at(s: Seq<char>, i: int) -> bool {
    &&& 0 <= i
    &&& i + 2 <= s.len()
    &&& s[i] == '.'
    &&& s[i + 1] == '.'
    &&& (i == 0 || s[i - 1] == '/')
    &&& (i + 2 == s.len() || s[i + 2] == '/')
}

/// Some component of the relative path `s` is a parent-directory reference.
pub open spec fn has_parent_component(s: Seq<char>) -> bool {
    exists|i: int| #[trigger] parent_segment_at(s, i)
}

/// The path `identity` names below `root`.
pub open spec fn joined(root: Seq<char>, identity: Seq<char>) -> Seq<char> {
    if root.len() == 0 || root.last() == '/' {
        root + identity
    } else {
        root + seq!['/'] + identity
    }
}

/// What the filesystem holds at a joined path.
#[derive(PartialEq, Eq, Structural, Clone, Copy, Debug)]
pub enum EntryKind {
    Missing,
    RegularFile,
    /// A directory, a socket, or anything else that is not a regular file.
    Other,
}

/// How a backend failed to hand out an original.
#[derive(PartialEq, Eq, Structural, Clone, Copy, Debug)]
pub enum BackendFailure {
    /// The backend reports that no object or file exists under the key.
    NotFound,
    /// Any other failure: transport, authentication, a timeout, an I/O error.
    Other,
}

pub open spec fn resolved(
    root: Seq<char>,
    requested: Seq<char>,
    entry: EntryKind,
) -> Result<Seq<char>, ReadImageError> {
    if has_parent_component(requested) {
        Err(ReadImageError::ForbiddenPath)
    } else {
        match entry {
            EntryKind::Missing => Err(ReadImageError::FileNotFound),
            EntryKind::Other => Err(ReadImageError::ForbiddenPath),
            EntryKind::RegularFile => Ok(joined(root, requested)),
        }
    }
}

/// Whether `s` holds a `..` component.
pub fn contains_parent_component(s: &str) -> (r: bool)
    ensures
        r == has_parent_component(s@),
{
    let n = s.unicode_len();
    let mut i: usize = 0;
    while n > 0 && i < n - 1
        invariant
            n == s@.len(),
            i <= n,
            forall|j: int| 0 <= j < i ==> !parent_segment_at(s@, j),
        decreases n - i,
    {
        let a = s.get_char(i);
        let b = s.get_char(i + 1);
        let before_ok = i == 0 || s.get_char(i - 1) == '/';
        let after_ok = i + 2 == n || s.get_char(i + 2) == '/';
        if a == '.' && b == '.' && before_ok && after_ok {
            assert(parent_segment_at(s@, i as int));
            return true;
        }
        i = i + 1;
    }
    assert forall|j: int| !parent_segment_at(s@, j) by {
        if 0 <= j < i {
        }
    }
    false
}

/// The path that `identity` names below `root`. The result always starts with `root`,
/// so an absolute identity still lands inside it.
pub fn join_path(root: &str, identity: &str) -> (r: String)
    ensures
        r@ == joined(root@, identity@),
        r@.subrange(0, root@.len() as int) == root@,
{
    let n = root.unicode_len();
    let mut r = String::from_str(root);
    if n != 0 && root.get_char(n - 1) != '/' {
        r.append("/");
        proof {
            reveal_strlit("/");
        }
    }
    r.append(identity);
    assert(r@.subrange(0, root@.len() as int) =~= root@);
    assert(r@ =~= joined(root@, identity@));
    r
}

/// Resolves `requested` against a local `root`, given what the filesystem holds at
/// the joined path. A `..` component is refused whatever the filesystem holds.
pub fn resolve(root: &str, requested: &str, entry: EntryKind) -> (r: Result<String, ReadImageError>)
    ensures
        r matches Ok(p) ==> resolved(root@, requested@, entry) == Ok::<Seq<char>, ReadImageError>(p@),
        r matches Err(e) ==> resolved(root@, requested@, entry) == Err::<Seq<char>, ReadImageError>(e),
        r matches Ok(p) ==> p@.subrange(0, root@.len() as int) == root@,
{
    if contains_parent_component(requested) {
        return Err(ReadImageError::ForbiddenPath);
    }
    match entry {
        EntryKind::Missing => Err(ReadImageError::FileNotFound),
        EntryKind::Other => Err(ReadImageError::ForbiddenPath),
        EntryKind::RegularFile => Ok(join_path(root, requested)),
    }
}

pub open spec fn store_key_of(identity: Seq<char>) -> Result<Seq<char>, ReadImageError> {
    if has_parent_component(identity) {
        Err(ReadImageError::ForbiddenPath)
    } else {
        Ok(identity)
    }
}

/// The object key for `identity` in a remote store. The same traversal rule as for a
/// local root applies, though a store has no directories to climb.
pub fn store_key(identity: &str) -> (r: Result<String, ReadImageError>)
    ensures
        r matches Ok(k) ==> store_key_of(identity@) == Ok::<Seq<char>, ReadImageError>(k@),
        r matches Err(e) ==> store_key_of(identity@) == Err::<Seq<char>, ReadImageError>(e),
{
    if contains_parent_component(identity) {
        Err(ReadImageError::ForbiddenPath)
    } else {
        Ok(String::from_str(identity))
    }
}

pub open spec fn failure_error(f: BackendFailure) -> ReadImageError {
    match f {
        BackendFailure::NotFound => ReadImageError::FileNotFound,
        BackendFailure::Other => ReadImageError::BackendUnavailable,
    }
}

/// The error reported for a backend failure: an absent object is `FileNotFound`,
/// everything else is `BackendUnavailable`.
pub fn classify_failure(f: BackendFailure) -> (r: ReadImageError)
    ensures
        r == failure_error(f),
{
    match f {
        BackendFailure::NotFound => ReadImageError::FileNotFound,
        BackendFailure::Other => ReadImageError::BackendUnavailable,
    }
}

} // verus!
