//! A guest's path and the directory that it is relative to.
use crate::host::{Handle, Request, Slot};
use vstd::prelude::*;

verus! {

/// A path that is relative to an open directory.
#[derive(Debug, PartialEq, Eq)]
pub struct PathGet {
    pub dirfd: Handle,
    pub path: String,
}

/// The path ends in a slash.
pub open spec fn ends_with_slash(path: Seq<char>) -> bool {
    path.len() > 0 && path.last() == '/'
}

/// The path without the slashes at its end.
pub open spec fn trim_slashes(path: Seq<char>) -> Seq<char>
    decreases path.len(),
{
    if ends_with_slash(path) {
        trim_slashes(path.drop_last())
    } else {
        path
    }
}

/// Trimming takes away all the slashes at the end and nothing else: what is left
/// does not end in a slash, and what was taken away is nothing but slashes.
pub proof fn trimming_takes_the_trailing_slashes(path: Seq<char>)
    ensures
        !ends_with_slash(trim_slashes(path)),
        trim_slashes(path).len() <= path.len(),
        trim_slashes(path) == path.take(trim_slashes(path).len() as int),
        forall|i: int| trim_slashes(path).len() <= i < path.len() ==> path[i] == '/',
        ends_with_slash(path) <==> trim_slashes(path) != path,
    decreases path.len(),
{
    if ends_with_slash(path) {
        trimming_takes_the_trailing_slashes(path.drop_last());
        let kept = trim_slashes(path).len() as int;
        assert(path.drop_last().take(kept) == path.take(kept));
        assert forall|i: int| kept <= i < path.len() implies path[i] == '/' by {
            if i < path.len() - 1 {
                assert(path.drop_last()[i] == path[i]);
            }
        }
    } else {
        assert(path.take(path.len() as int) == path);
    }
}

/// It does not matter how many slashes a path ends in: one more is trimmed too.
pub proof fn one_more_slash_is_trimmed_too(path: Seq<char>)
    ensures
        trim_slashes(path.push('/')) == trim_slashes(path),
{
    assert(path.push('/').drop_last() == path);
}

/// A path ends in a slash exactly if its last character is one; the empty path has
/// none. What trimming leaves is the longest beginning of the path that is empty or
/// ends in another character.
pub proof fn trimming_stops_at_the_first_other_character(path: Seq<char>)
    ensures
        ends_with_slash(path) <==> path.len() > 0 && path[path.len() - 1] == '/',
        ({
            let kept = trim_slashes(path);
            &&& kept.len() <= path.len()
            &&& forall|i: int| 0 <= i < kept.len() ==> kept[i] == path[i]
            &&& kept.len() == 0 || path[kept.len() - 1] != '/'
            &&& forall|i: int| kept.len() <= i < path.len() ==> path[i] == '/'
        }),
{
    trimming_takes_the_trailing_slashes(path);
}

impl PathGet {
    /// The request to join this path to the path of its directory.
    pub open spec fn spec_concatenate(self, into: Slot) -> Request<Seq<char>> {
        Request::Concatenate { dirfd: self.dirfd, path: self.path@, into }
    }

    /// Asks for this path, joined to the path of its directory.
    pub fn concatenate(&self, into: Slot) -> (request: Request<String>)
        ensures
            request@ == self.spec_concatenate(into),
    {
        Request::Concatenate { dirfd: self.dirfd, path: self.path.clone(), into }
    }

    /// The request to join this path, without its trailing slashes, to the path
    /// of its directory.
    pub open spec fn spec_concatenate_trimmed(self) -> Request<Seq<char>> {
        Request::Concatenate {
            dirfd: self.dirfd,
            path: trim_slashes(self.path@),
            into: Slot::Trimmed,
        }
    }

    /// To locate a path is to join it, letter for letter, to the path of the directory
    /// that it is relative to, and to keep the result in the slot asked for. To locate it
    /// without its trailing slashes differs in these alone.
    pub proof fn a_path_is_joined_to_its_own_directory(self, into: Slot)
        ensures
            self.spec_concatenate(into) == (Request::Concatenate {
                dirfd: self.dirfd,
                path: self.path@,
                into,
            }),
            self.path@.len() == 0 || self.path@.last() != '/' ==> self.spec_concatenate_trimmed()
                == self.spec_concatenate(Slot::Trimmed),
    {
    }

    pub fn has_trailing_slash(&self) -> (trailing: bool)
        ensures
            trailing == ends_with_slash(self.path@),
    {
        let path = self.path.as_str();
        let len: usize = path.unicode_len();
        len > 0 && path.get_char(len - 1) == '/'
    }
}

/// If the path ends in a slash, asks for the path without its trailing slashes,
/// joined to the path of its directory.
pub fn strip_trailing_slashes_and_concatenate(resolved: &PathGet) -> (request: Option<
    Request<String>,
>)
    ensures
        request is Some <==> ends_with_slash(resolved.path@),
        request matches Some(asked) ==> asked@ == resolved.spec_concatenate_trimmed(),
{
    if !resolved.has_trailing_slash() {
        return None;
    }
    let path = resolved.path.as_str();
    let mut len: usize = path.unicode_len();
    assert(path@.take(len as int) == path@);
    while len > 0 && path.get_char(len - 1) == '/'
        invariant
            len <= path@.len(),
            trim_slashes(path@.take(len as int)) == trim_slashes(path@),
        ensures
            path@.take(len as int) == trim_slashes(path@),
        decreases len,
    {
        assert(path@.take(len as int).drop_last() == path@.take(len - 1));
        len = len - 1;
    }
    let trimmed = path.substring_char(0, len).to_owned();
    Some(Request::Concatenate { dirfd: resolved.dirfd, path: trimmed, into: Slot::Trimmed })
}

} // verus!
