//! Removing a name from its directory.
use crate::error::{Error, OsError, WasiError, WinError, ERROR_ACCESS_DENIED};
use crate::host::{self, Host, Hostcall, Outcome, Reply, Request, Slot};
use crate::path::PathGet;
use crate::wasi::FileType;
use vstd::prelude::*;

verus! {

/// What `path_unlink_file` waits for.
#[derive(Clone, Copy, Debug, PartialEq, Eq)]
pub enum UnlinkStage {
    /// The path joined to its directory's.
    Locate,
    /// What the path names.
    Inspect,
    /// The removal of a file.
    RemoveFile,
    /// The removal of a link, taken for a link to a file.
    RemoveLink,
    /// The removal of a link to a directory.
    RemoveDirLink,
}

/// `path_unlink_file` under way.
#[derive(Debug, PartialEq, Eq)]
pub struct PathUnlinkFile {
    pub resolved: PathGet,
    pub stage: UnlinkStage,
}

impl PathUnlinkFile {
    /// The hostcall, waiting for something else.
    pub open spec fn at(self, stage: UnlinkStage) -> Outcome<PathUnlinkFile, ()> {
        Outcome::Continue(PathUnlinkFile { stage, ..self })
    }

    /// What becomes of a path that names this: links and files are removed.
    pub open spec fn spec_found(self, ftype: FileType) -> Outcome<PathUnlinkFile, ()> {
        match ftype {
            FileType::Symlink => self.at(UnlinkStage::RemoveLink),
            FileType::Directory => Outcome::Done(Err(Error::Wasi(WasiError::EISDIR))),
            FileType::RegularFile => self.at(UnlinkStage::RemoveFile),
            _ => Outcome::Done(Err(Error::Wasi(WasiError::EINVAL))),
        }
    }

    /// What a link that could not be removed as a link to a file leads to:
    /// access is denied where it is a link to a directory.
    pub open spec fn spec_link_stays(self, error: OsError) -> Outcome<PathUnlinkFile, ()> {
        match error.spec_win_error() {
            None => Outcome::Done(Err(Error::Wasi(WasiError::EIO))),
            Some(win) => if win.code == ERROR_ACCESS_DENIED {
                self.at(UnlinkStage::RemoveDirLink)
            } else {
                Outcome::Done(Err(Error::Winx(win)))
            },
        }
    }

    fn proceed(self, stage: UnlinkStage) -> (outcome: Outcome<PathUnlinkFile, ()>)
        ensures
            outcome == self.at(stage),
    {
        Outcome::Continue(PathUnlinkFile { stage, ..self })
    }
}

impl Hostcall for PathUnlinkFile {
    type Output = ();

    open spec fn asks(self) -> Request<Seq<char>> {
        match self.stage {
            UnlinkStage::Locate => self.resolved.spec_concatenate(Slot::Target),
            UnlinkStage::Inspect => Request::SymlinkMetadata(Slot::Target),
            UnlinkStage::RemoveFile => Request::RemoveFile(Slot::Target),
            UnlinkStage::RemoveLink => Request::RemoveFile(Slot::Target),
            UnlinkStage::RemoveDirLink => Request::RemoveDir(Slot::Target),
        }
    }

    open spec fn after(self, reply: Reply) -> Outcome<Self, ()> {
        match (self.stage, reply) {
            (UnlinkStage::Locate, Reply::Located(Ok(()))) => self.at(UnlinkStage::Inspect),
            (UnlinkStage::Locate, Reply::Located(Err(error))) => Outcome::Done(Err(error)),
            (UnlinkStage::Inspect, Reply::Type(Ok(ftype))) => self.spec_found(ftype),
            (UnlinkStage::Inspect, Reply::Type(Err(error))) => Outcome::Done(
                Err(Error::Io(error)),
            ),
            (UnlinkStage::RemoveLink, Reply::Finished(Err(error))) => self.spec_link_stays(error),
            (UnlinkStage::RemoveLink, Reply::Finished(Ok(()))) => Outcome::Done(Ok(())),
            (UnlinkStage::RemoveFile, Reply::Finished(Ok(()))) => Outcome::Done(Ok(())),
            (UnlinkStage::RemoveFile, Reply::Finished(Err(error))) => Outcome::Done(
                Err(Error::Io(error)),
            ),
            (UnlinkStage::RemoveDirLink, Reply::Finished(Ok(()))) => Outcome::Done(Ok(())),
            (UnlinkStage::RemoveDirLink, Reply::Finished(Err(error))) => Outcome::Done(
                Err(Error::Io(error)),
            ),
            _ => Outcome::Continue(self),
        }
    }

    proof fn other_replies_change_nothing(self, reply: Reply) {
    }

    fn request(&self) -> Request<String> {
        match self.stage {
            UnlinkStage::Locate => self.resolved.concatenate(Slot::Target),
            UnlinkStage::Inspect => Request::SymlinkMetadata(Slot::Target),
            UnlinkStage::RemoveFile | UnlinkStage::RemoveLink => Request::RemoveFile(Slot::Target),
            UnlinkStage::RemoveDirLink => Request::RemoveDir(Slot::Target),
        }
    }

    fn resume(self, reply: Reply) -> Outcome<Self, ()> {
        match (self.stage, reply) {
            (UnlinkStage::Locate, Reply::Located(Ok(()))) => self.proceed(UnlinkStage::Inspect),
            (UnlinkStage::Locate, Reply::Located(Err(error))) => Outcome::Done(Err(error)),
            (UnlinkStage::Inspect, Reply::Type(Ok(ftype))) => match ftype {
                FileType::Symlink => self.proceed(UnlinkStage::RemoveLink),
                FileType::Directory => Outcome::Done(Err(Error::Wasi(WasiError::EISDIR))),
                FileType::RegularFile => self.proceed(UnlinkStage::RemoveFile),
                _ => Outcome::Done(Err(Error::Wasi(WasiError::EINVAL))),
            },
            (UnlinkStage::Inspect, Reply::Type(Err(error))) => Outcome::Done(
                Err(Error::Io(error)),
            ),
            (UnlinkStage::RemoveLink, Reply::Finished(Err(error))) => match error.win_error() {
                None => Outcome::Done(Err(Error::Wasi(WasiError::EIO))),
                Some(win) => {
                    if win.code == ERROR_ACCESS_DENIED {
                        self.proceed(UnlinkStage::RemoveDirLink)
                    } else {
                        Outcome::Done(Err(Error::Winx(win)))
                    }
                },
            },
            (
                UnlinkStage::RemoveFile | UnlinkStage::RemoveLink | UnlinkStage::RemoveDirLink,
                Reply::Finished(Ok(())),
            ) => Outcome::Done(Ok(())),
            (
                UnlinkStage::RemoveFile | UnlinkStage::RemoveDirLink,
                Reply::Finished(Err(error)),
            ) => Outcome::Done(Err(Error::Io(error))),
            _ => Outcome::Continue(self),
        }
    }
}

/// Removes a file or a link. On every host this ends after at most four replies,
/// with [`path_unlink_file_result`].
pub fn path_unlink_file(resolved: PathGet) -> (call: PathUnlinkFile)
    ensures
        call == (PathUnlinkFile { resolved, stage: UnlinkStage::Locate }),
        forall|host: Host, n: nat| #[trigger]
            host::run(call, host, n, 4) == Some(path_unlink_file_result(resolved, host, n)),
{
    let call = PathUnlinkFile { resolved, stage: UnlinkStage::Locate };
    proof {
        assert forall|host: Host, n: nat| #[trigger]
            host::run(call, host, n, 4) == Some(path_unlink_file_result(resolved, host, n)) by {
            path_unlink_file_ends(call, host, n);
        }
    }
    call
}

/// What `path_unlink_file` returns on a host.
pub open spec fn path_unlink_file_result(resolved: PathGet, host: Host, n: nat) -> Result<
    (),
    Error,
> {
    let located = (host.concatenate)(n, resolved.dirfd, resolved.path@, Slot::Target);
    let removed = (host.remove_file)(n + 2, Slot::Target);
    if located is Err {
        Err(located->Err_0)
    } else {
        match (host.type_at)(n + 1, Slot::Target) {
            Err(error) => Err(Error::Io(error)),
            Ok(FileType::RegularFile) => match removed {
                Ok(()) => Ok(()),
                Err(error) => Err(Error::Io(error)),
            },
            Ok(FileType::Directory) => Err(Error::Wasi(WasiError::EISDIR)),
            Ok(FileType::Symlink) => if removed is Ok {
                Ok(())
            } else {
                match removed->Err_0.spec_win_error() {
                    None => Err(Error::Wasi(WasiError::EIO)),
                    Some(win) => if win.code != ERROR_ACCESS_DENIED {
                        Err(Error::Winx(win))
                    } else {
                        match (host.remove_dir)(n + 3, Slot::Target) {
                            Ok(()) => Ok(()),
                            Err(error) => Err(Error::Io(error)),
                        }
                    },
                }
            },
            Ok(_) => Err(Error::Wasi(WasiError::EINVAL)),
        }
    }
}

/// On every host `path_unlink_file` ends after at most four replies, with its
/// result.
pub proof fn path_unlink_file_ends(call: PathUnlinkFile, host: Host, n: nat)
    requires
        call.stage == UnlinkStage::Locate,
    ensures
        host::run(call, host, n, 4) == Some(path_unlink_file_result(call.resolved, host, n)),
{
    reveal_with_fuel(host::run, 5);
}

/// `path_unlink_file` removes nothing but files and links: what it removes was
/// found to be one, and what it removes as a directory was found to be a link.
pub proof fn only_files_and_links_are_unlinked(
    call: PathUnlinkFile,
    host: Host,
    n: nat,
    i: int,
)
    requires
        call.stage == UnlinkStage::Locate,
        0 <= i < host::requests(call, host, n, 4).len(),
    ensures
        host::requests(call, host, n, 4)[i] is RemoveFile ==> {
            ||| (host.type_at)(n + 1, Slot::Target) == Ok::<_, OsError>(FileType::RegularFile)
            ||| (host.type_at)(n + 1, Slot::Target) == Ok::<_, OsError>(FileType::Symlink)
        },
        host::requests(call, host, n, 4)[i] is RemoveDir ==> {
            &&& (host.type_at)(n + 1, Slot::Target) == Ok::<_, OsError>(FileType::Symlink)
            &&& (host.remove_file)(n + 2, Slot::Target) is Err
            &&& (host.remove_file)(n + 2, Slot::Target)->Err_0.spec_win_error() == Some(
                WinError { code: ERROR_ACCESS_DENIED },
            )
        },
{
    reveal_with_fuel(host::requests, 5);
}

/// `path_unlink_file` reports success exactly if the last thing that it asked for is to
/// remove what is at the path, and the host did that.
pub proof fn success_means_that_the_host_removed(
    call: PathUnlinkFile,
    host: Host,
    n: nat,
    limit: nat,
)
    requires
        limit > 0,
    ensures
        ({
            let made = host::requests(call, host, n, limit);
            let done = {
                &&& made.last() == Request::<Seq<char>>::RemoveFile(Slot::Target) || made.last()
                    == Request::<Seq<char>>::RemoveDir(Slot::Target)
                &&& host::last_reply(call, host, n, limit) matches Reply::Finished(Ok(_))
            };
            &&& made.len() > 0
            &&& (host::run(call, host, n, limit) matches Some(Ok(_))) <==> done
        }),
    decreases limit,
{
    reveal_with_fuel(host::run, 2);
    host::the_last_reply_comes_last(call, host, n, limit);
    if limit > 1 {
        match call.after(host.answer(n, call.asks())) {
            Outcome::Continue(next) => {
                success_means_that_the_host_removed(next, host, n + 1, (limit - 1) as nat);
            },
            Outcome::Done(_) => {},
        }
    }
}

/// The path is located, then looked at. If either fails, that failure is the result. A
/// directory gets `EISDIR`. A regular file or a link is removed as a file, and whatever
/// else the path can name gets `EINVAL`. If the host removes it, that is all.
pub proof fn files_and_links_are_removed_as_files(call: PathUnlinkFile, host: Host, n: nat)
    requires
        call.stage == UnlinkStage::Locate,
    ensures
        ({
            let made = host::requests(call, host, n, 4);
            let result = host::run(call, host, n, 4);
            let dirfd = call.resolved.dirfd;
            let path = call.resolved.path@;
            &&& made[0] == Request::Concatenate { dirfd, path, into: Slot::Target }
            &&& match (host.concatenate)(n, dirfd, path, Slot::Target) {
                Err(error) => made.len() == 1 && result == Some(Err::<(), Error>(error)),
                Ok(()) => {
                    &&& made[1] == Request::<Seq<char>>::SymlinkMetadata(Slot::Target)
                    &&& match (host.type_at)(n + 1, Slot::Target) {
                        Err(error) => {
                            &&& made.len() == 2
                            &&& result == Some(Err::<(), Error>(Error::Io(error)))
                        },
                        Ok(found) => {
                            &&& found is RegularFile || found is Symlink ==> {
                                &&& made[2] == Request::<Seq<char>>::RemoveFile(Slot::Target)
                                &&& (host.remove_file)(n + 2, Slot::Target) is Ok ==> {
                                    &&& made.len() == 3
                                    &&& result == Some(Ok::<(), Error>(()))
                                }
                            }
                            &&& found is Directory ==> {
                                &&& made.len() == 2
                                &&& result == Some(
                                    Err::<(), Error>(Error::Wasi(WasiError::EISDIR)),
                                )
                            }
                            &&& !(found is RegularFile) && !(found is Symlink) && !(
                            found is Directory) ==> {
                                &&& made.len() == 2
                                &&& result == Some(
                                    Err::<(), Error>(Error::Wasi(WasiError::EINVAL)),
                                )
                            }
                        },
                    }
                },
            }
        }),
{
    reveal_with_fuel(host::run, 5);
    reveal_with_fuel(host::requests, 5);
}

/// If a regular file cannot be removed, that failure is the result. If a link cannot,
/// and access was denied, it is removed as a directory, and the result is what comes of
/// that; any other failure is passed on, as `EIO` if it has no number.
pub proof fn a_link_that_stays_is_removed_as_a_directory(
    call: PathUnlinkFile,
    host: Host,
    n: nat,
    found: FileType,
    error: OsError,
)
    requires
        call.stage == UnlinkStage::Locate,
        (host.concatenate)(n, call.resolved.dirfd, call.resolved.path@, Slot::Target) is Ok,
        (host.type_at)(n + 1, Slot::Target) == Ok::<FileType, OsError>(found),
        found is RegularFile || found is Symlink,
        (host.remove_file)(n + 2, Slot::Target) == Err::<(), OsError>(error),
    ensures
        ({
            let made = host::requests(call, host, n, 4);
            let result = host::run(call, host, n, 4);
            &&& found is RegularFile ==> {
                &&& made.len() == 3
                &&& result == Some(Err::<(), Error>(Error::Io(error)))
            }
            &&& found is Symlink ==> match error.raw_os_error {
                None => {
                    &&& made.len() == 3
                    &&& result == Some(Err::<(), Error>(Error::Wasi(WasiError::EIO)))
                },
                Some(5) => {
                    &&& made.len() == 4
                    &&& made[3] == Request::<Seq<char>>::RemoveDir(Slot::Target)
                    &&& match (host.remove_dir)(n + 3, Slot::Target) {
                        Err(error) => result == Some(Err::<(), Error>(Error::Io(error))),
                        Ok(()) => result == Some(Ok::<(), Error>(())),
                    }
                },
                Some(number) => {
                    &&& made.len() == 3
                    &&& result == Some(
                        Err::<(), Error>(Error::Winx(WinError::spec_from_u32(number as u32))),
                    )
                },
            }
        }),
{
    reveal_with_fuel(host::run, 5);
    reveal_with_fuel(host::requests, 5);
    crate::error::a_failure_keeps_its_number_if_it_has_a_name(error);
}

/// Every request of `path_unlink_file` finds its path and its handle ready.
pub proof fn path_unlink_file_finds_ready(call: PathUnlinkFile, host: Host, n: nat)
    requires
        call.stage == UnlinkStage::Locate,
    ensures
        host::finds_ready(call, host, n, 4, host::ready_with(set![call.resolved.dirfd])),
{
    reveal_with_fuel(host::finds_ready, 5);
}

} // verus!
