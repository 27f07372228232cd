//! Creating and removing a directory.
use crate::error::Error;
use crate::host::{self, Handle, Host, Hostcall, Outcome, Reply, Request, Slot};
use crate::path::PathGet;
use vstd::prelude::*;

verus! {

/// What becomes of a directory.
#[derive(Clone, Copy, Debug, PartialEq, Eq)]
pub enum DirectoryChange {
    Create,
    Remove,
}

/// `path_create_directory` or `path_remove_directory` under way.
#[derive(Debug, PartialEq, Eq)]
pub struct PathDirectory {
    pub resolved: PathGet,
    pub change: DirectoryChange,
    /// The path is joined to its directory's.
    pub located: bool,
}

impl Hostcall for PathDirectory {
    type Output = ();

    open spec fn asks(self) -> Request<Seq<char>> {
        if !self.located {
            self.resolved.spec_concatenate(Slot::Target)
        } else if self.change is Create {
            Request::CreateDir(Slot::Target)
        } else {
            Request::RemoveDir(Slot::Target)
        }
    }

    open spec fn after(self, reply: Reply) -> Outcome<Self, ()> {
        match (self.located, reply) {
            (false, Reply::Located(Ok(()))) => Outcome::Continue(
                PathDirectory { located: true, ..self },
            ),
            (false, Reply::Located(Err(error))) => Outcome::Done(Err(error)),
            (true, Reply::Finished(Ok(()))) => Outcome::Done(Ok(())),
            (true, Reply::Finished(Err(error))) => Outcome::Done(Err(Error::Io(error))),
            _ => Outcome::Continue(self),
        }
    }

    proof fn other_replies_change_nothing(self, reply: Reply) {
    }

    fn request(&self) -> Request<String> {
        if !self.located {
            return self.resolved.concatenate(Slot::Target);
        }
        match self.change {
            DirectoryChange::Create => Request::CreateDir(Slot::Target),
            DirectoryChange::Remove => Request::RemoveDir(Slot::Target),
        }
    }

    fn resume(self, reply: Reply) -> Outcome<Self, ()> {
        match (self.located, reply) {
            (false, Reply::Located(Ok(()))) => Outcome::Continue(
                PathDirectory { located: true, ..self },
            ),
            (false, Reply::Located(Err(error))) => Outcome::Done(Err(error)),
            (true, Reply::Finished(Ok(()))) => Outcome::Done(Ok(())),
            (true, Reply::Finished(Err(error))) => Outcome::Done(Err(Error::Io(error))),
            _ => Outcome::Continue(self),
        }
    }
}

/// Creates a directory at `path`, which is relative to the directory `file`. On
/// every host this ends after at most two replies, with [`path_directory_result`].
pub fn path_create_directory(file: Handle, path: &str) -> (call: PathDirectory)
    ensures
        call.resolved.dirfd == file,
        call.resolved.path@ == path@,
        call.change == DirectoryChange::Create,
        !call.located,
        forall|host: Host, n: nat| #[trigger]
            host::run(call, host, n, 2) == Some(
                path_directory_result(call.resolved, DirectoryChange::Create, host, n),
            ),
{
    let call = PathDirectory {
        resolved: PathGet { dirfd: file, path: path.to_owned() },
        change: DirectoryChange::Create,
        located: false,
    };
    proof {
        assert forall|host: Host, n: nat| #[trigger]
            host::run(call, host, n, 2) == Some(
                path_directory_result(call.resolved, DirectoryChange::Create, host, n),
            ) by {
            path_directory_ends(call, host, n);
        }
    }
    call
}

/// Removes the directory at a path. On every host this ends after at most two
/// replies, with [`path_directory_result`].
pub fn path_remove_directory(resolved: PathGet) -> (call: PathDirectory)
    ensures
        call == (PathDirectory { resolved, change: DirectoryChange::Remove, located: false }),
        forall|host: Host, n: nat| #[trigger]
            host::run(call, host, n, 2) == Some(
                path_directory_result(resolved, DirectoryChange::Remove, host, n),
            ),
{
    let call = PathDirectory { resolved, change: DirectoryChange::Remove, located: false };
    proof {
        assert forall|host: Host, n: nat| #[trigger]
            host::run(call, host, n, 2) == Some(
                path_directory_result(resolved, DirectoryChange::Remove, host, n),
            ) by {
            path_directory_ends(call, host, n);
        }
    }
    call
}

/// What `path_create_directory` or `path_remove_directory` returns on a host.
pub open spec fn path_directory_result(
    resolved: PathGet,
    change: DirectoryChange,
    host: Host,
    n: nat,
) -> Result<(), Error> {
    let located = (host.concatenate)(n, resolved.dirfd, resolved.path@, Slot::Target);
    let changed = match change {
        DirectoryChange::Create => (host.create_dir)(n + 1, Slot::Target),
        DirectoryChange::Remove => (host.remove_dir)(n + 1, Slot::Target),
    };
    if located is Err {
        Err(located->Err_0)
    } else if changed is Err {
        Err(Error::Io(changed->Err_0))
    } else {
        Ok(())
    }
}

/// On every host `path_create_directory` and `path_remove_directory` end after at
/// most two replies, with their result.
pub proof fn path_directory_ends(call: PathDirectory, host: Host, n: nat)
    requires
        !call.located,
    ensures
        host::run(call, host, n, 2) == Some(
            path_directory_result(call.resolved, call.change, host, n),
        ),
{
    reveal_with_fuel(host::run, 3);
}

/// A directory is created or removed at the path that was given and nowhere else, once
/// that path is located, and it is reported as done exactly if the host did it. If the
/// path cannot be located, or the host fails, that failure is the result.
pub proof fn the_directory_at_the_path_is_changed(call: PathDirectory, host: Host, n: nat)
    requires
        !call.located,
    ensures
        ({
            let made = host::requests(call, host, n, 2);
            let result = host::run(call, host, n, 2);
            let dirfd = call.resolved.dirfd;
            let path = call.resolved.path@;
            &&& made[0] == Request::Concatenate { dirfd, path, into: Slot::Target }
            &&& match (host.concatenate)(n, dirfd, path, Slot::Target) {
                Err(error) => made.len() == 1 && result == Some(Err::<(), Error>(error)),
                Ok(()) => {
                    let changed = if call.change is Create {
                        (host.create_dir)(n + 1, Slot::Target)
                    } else {
                        (host.remove_dir)(n + 1, Slot::Target)
                    };
                    &&& made.len() == 2
                    &&& call.change is Create ==> made[1] == Request::<Seq<char>>::CreateDir(
                        Slot::Target,
                    )
                    &&& call.change is Remove ==> made[1] == Request::<Seq<char>>::RemoveDir(
                        Slot::Target,
                    )
                    &&& match changed {
                        Ok(()) => result == Some(Ok::<(), Error>(())),
                        Err(error) => result == Some(Err::<(), Error>(Error::Io(error))),
                    }
                },
            }
        }),
{
    reveal_with_fuel(host::run, 3);
    reveal_with_fuel(host::requests, 3);
}

/// Every request of `path_create_directory` and `path_remove_directory` finds its
/// path and its handle ready.
pub proof fn path_directory_finds_ready(call: PathDirectory, host: Host, n: nat)
    requires
        !call.located,
    ensures
        host::finds_ready(call, host, n, 2, host::ready_with(set![call.resolved.dirfd])),
{
    reveal_with_fuel(host::finds_ready, 3);
}

} // verus!
