//! Renaming a path.
use crate::error::{Error, OsError, WasiError, WinError, ERROR_ACCESS_DENIED, ERROR_INVALID_NAME};
use crate::host::{self, Host, Hostcall, Outcome, Reply, Request, Slot};
use crate::path::{self, strip_trailing_slashes_and_concatenate, PathGet};
use vstd::prelude::*;

verus! {

/// What `path_rename` waits for.
#[derive(Clone, Copy, Debug, PartialEq, Eq)]
pub enum RenameStage {
    /// The old path joined to its directory's.
    LocateSource,
    /// The new path joined to its directory's.
    LocateTarget,
    /// Whether the old path is a directory.
    SourceIsDir,
    /// Whether the new path is a file.
    TargetIsFile,
    /// Whether the old path is a file.
    SourceIsFile,
    /// The rename.
    Rename,
    /// Whether the old path is a file, now that the rename was denied.
    DeniedSourceIsFile,
    /// The removal of the directory at the new path.
    RemoveTarget,
    /// The second rename.
    RenameAgain,
    /// The old path without its trailing slashes, joined to its directory's.
    LocateTrimmed,
    /// Whether the old path without its trailing slashes is a file.
    TrimmedIsFile,
}

/// `path_rename` under way.
#[derive(Debug, PartialEq, Eq)]
pub struct PathRename {
    pub old_path: PathGet,
    pub new_path: PathGet,
    pub stage: RenameStage,
}

impl PathRename {
    /// The hostcall, waiting for something else.
    pub open spec fn at(self, stage: RenameStage) -> Outcome<PathRename, ()> {
        Outcome::Continue(PathRename { stage, ..self })
    }

    /// What a failed rename leads to.
    ///
    /// Access is denied where a directory is in the way: an empty one can make
    /// room for another directory. A name is invalid where it ends in a slash: if
    /// a file has that name without the slash, it is no directory.
    pub open spec fn spec_rename_failed(self, error: OsError) -> Outcome<PathRename, ()> {
        match error.spec_win_error() {
            None => Outcome::Done(Err(Error::Wasi(WasiError::EIO))),
            Some(win) => if win.code == ERROR_ACCESS_DENIED {
                self.at(RenameStage::DeniedSourceIsFile)
            } else if win.code == ERROR_INVALID_NAME && path::ends_with_slash(
                self.old_path.path@,
            ) {
                self.at(RenameStage::LocateTrimmed)
            } else {
                Outcome::Done(Err(Error::Winx(win)))
            },
        }
    }

    fn proceed(self, stage: RenameStage) -> (outcome: Outcome<PathRename, ()>)
        ensures
            outcome == self.at(stage),
    {
        Outcome::Continue(PathRename { stage, ..self })
    }

    fn rename_failed(self, error: OsError) -> (outcome: Outcome<PathRename, ()>)
        ensures
            outcome == self.spec_rename_failed(error),
    {
        let win = match error.win_error() {
            None => return Outcome::Done(Err(Error::Wasi(WasiError::EIO))),
            Some(win) => win,
        };
        if win.code == ERROR_ACCESS_DENIED {
            self.proceed(RenameStage::DeniedSourceIsFile)
        } else if win.code == ERROR_INVALID_NAME && self.old_path.has_trailing_slash() {
            self.proceed(RenameStage::LocateTrimmed)
        } else {
            Outcome::Done(Err(Error::Winx(win)))
        }
    }
}

impl Hostcall for PathRename {
    type Output = ();

    open spec fn asks(self) -> Request<Seq<char>> {
        match self.stage {
            RenameStage::LocateSource => self.old_path.spec_concatenate(Slot::Source),
            RenameStage::LocateTarget => self.new_path.spec_concatenate(Slot::Target),
            RenameStage::SourceIsDir => Request::IsDir(Slot::Source),
            RenameStage::TargetIsFile => Request::IsFile(Slot::Target),
            RenameStage::SourceIsFile => Request::IsFile(Slot::Source),
            RenameStage::Rename => Request::Rename { from: Slot::Source, to: Slot::Target },
            RenameStage::DeniedSourceIsFile => Request::IsFile(Slot::Source),
            RenameStage::RemoveTarget => Request::RemoveDir(Slot::Target),
            RenameStage::RenameAgain => Request::Rename { from: Slot::Source, to: Slot::Target },
            RenameStage::LocateTrimmed => self.old_path.spec_concatenate_trimmed(),
            RenameStage::TrimmedIsFile => Request::IsFile(Slot::Trimmed),
        }
    }

    open spec fn after(self, reply: Reply) -> Outcome<Self, ()> {
        match (self.stage, reply) {
            (RenameStage::LocateSource, Reply::Located(Ok(()))) => self.at(
                RenameStage::LocateTarget,
            ),
            (RenameStage::LocateSource, Reply::Located(Err(error))) => Outcome::Done(Err(error)),
            (RenameStage::LocateTarget, Reply::Located(Ok(()))) => self.at(
                RenameStage::SourceIsDir,
            ),
            (RenameStage::LocateTarget, Reply::Located(Err(error))) => Outcome::Done(Err(error)),
            (RenameStage::SourceIsDir, Reply::Answer(true)) => self.at(RenameStage::TargetIsFile),
            (RenameStage::SourceIsDir, Reply::Answer(false)) => self.at(RenameStage::SourceIsFile),
            (RenameStage::TargetIsFile, Reply::Answer(true)) => Outcome::Done(
                Err(Error::Wasi(WasiError::ENOTDIR)),
            ),
            (RenameStage::TargetIsFile, Reply::Answer(false)) => self.at(
                RenameStage::SourceIsFile,
            ),
            (RenameStage::SourceIsFile, Reply::Answer(is_file)) => if is_file
                && path::ends_with_slash(self.new_path.path@) {
                Outcome::Done(Err(Error::Wasi(WasiError::ENOTDIR)))
            } else {
                self.at(RenameStage::Rename)
            },
            (RenameStage::Rename, Reply::Finished(Ok(()))) => Outcome::Done(Ok(())),
            (RenameStage::Rename, Reply::Finished(Err(error))) => self.spec_rename_failed(error),
            (RenameStage::DeniedSourceIsFile, Reply::Answer(true)) => Outcome::Done(
                Err(Error::Wasi(WasiError::EISDIR)),
            ),
            (RenameStage::DeniedSourceIsFile, Reply::Answer(false)) => self.at(
                RenameStage::RemoveTarget,
            ),
            (RenameStage::RemoveTarget, Reply::Finished(Ok(()))) => self.at(
                RenameStage::RenameAgain,
            ),
            (RenameStage::RemoveTarget, Reply::Finished(Err(error))) => Outcome::Done(
                Err(Error::Io(error)),
            ),
            (RenameStage::RenameAgain, Reply::Finished(Ok(()))) => Outcome::Done(Ok(())),
            (RenameStage::RenameAgain, Reply::Finished(Err(error))) => Outcome::Done(
                Err(Error::Io(error)),
            ),
            (RenameStage::LocateTrimmed, Reply::Located(Ok(()))) => self.at(
                RenameStage::TrimmedIsFile,
            ),
            (RenameStage::LocateTrimmed, Reply::Located(Err(error))) => Outcome::Done(Err(error)),
            (RenameStage::TrimmedIsFile, Reply::Answer(true)) => Outcome::Done(
                Err(Error::Wasi(WasiError::ENOTDIR)),
            ),
            (RenameStage::TrimmedIsFile, Reply::Answer(false)) => Outcome::Done(
                Err(Error::Winx(WinError { code: ERROR_INVALID_NAME })),
            ),
            _ => Outcome::Continue(self),
        }
    }

    proof fn other_replies_change_nothing(self, reply: Reply) {
    }

    fn request(&self) -> Request<String> {
        match self.stage {
            RenameStage::LocateSource => self.old_path.concatenate(Slot::Source),
            RenameStage::LocateTarget => self.new_path.concatenate(Slot::Target),
            RenameStage::SourceIsDir => Request::IsDir(Slot::Source),
            RenameStage::TargetIsFile => Request::IsFile(Slot::Target),
            RenameStage::SourceIsFile => Request::IsFile(Slot::Source),
            RenameStage::Rename => Request::Rename { from: Slot::Source, to: Slot::Target },
            RenameStage::DeniedSourceIsFile => Request::IsFile(Slot::Source),
            RenameStage::RemoveTarget => Request::RemoveDir(Slot::Target),
            RenameStage::RenameAgain => Request::Rename { from: Slot::Source, to: Slot::Target },
            RenameStage::LocateTrimmed => match strip_trailing_slashes_and_concatenate(
                &self.old_path,
            ) {
                Some(request) => request,
                None => self.old_path.concatenate(Slot::Trimmed),
            },
            RenameStage::TrimmedIsFile => Request::IsFile(Slot::Trimmed),
        }
    }

    fn resume(self, reply: Reply) -> Outcome<Self, ()> {
        match (self.stage, reply) {
            (
                RenameStage::LocateSource | RenameStage::LocateTarget | RenameStage::LocateTrimmed,
                Reply::Located(Err(error)),
            ) => Outcome::Done(Err(error)),
            (RenameStage::LocateSource, Reply::Located(Ok(()))) => self.proceed(
                RenameStage::LocateTarget,
            ),
            (RenameStage::LocateTarget, Reply::Located(Ok(()))) => self.proceed(
                RenameStage::SourceIsDir,
            ),
            (RenameStage::SourceIsDir, Reply::Answer(is_dir)) => {
                if is_dir {
                    self.proceed(RenameStage::TargetIsFile)
                } else {
                    self.proceed(RenameStage::SourceIsFile)
                }
            },
            (RenameStage::TargetIsFile, Reply::Answer(is_file)) => {
                // A directory does not take the place of a file.
                if is_file {
                    Outcome::Done(Err(Error::Wasi(WasiError::ENOTDIR)))
                } else {
                    self.proceed(RenameStage::SourceIsFile)
                }
            },
            (RenameStage::SourceIsFile, Reply::Answer(is_file)) => {
                // A path that ends in a slash is no name for a file.
                if is_file && self.new_path.has_trailing_slash() {
                    Outcome::Done(Err(Error::Wasi(WasiError::ENOTDIR)))
                } else {
                    self.proceed(RenameStage::Rename)
                }
            },
            (RenameStage::Rename, Reply::Finished(Err(error))) => self.rename_failed(error),
            (RenameStage::Rename | RenameStage::RenameAgain, Reply::Finished(Ok(()))) =>
                Outcome::Done(Ok(())),
            (RenameStage::DeniedSourceIsFile, Reply::Answer(is_file)) => {
                if is_file {
                    Outcome::Done(Err(Error::Wasi(WasiError::EISDIR)))
                } else {
                    self.proceed(RenameStage::RemoveTarget)
                }
            },
            (RenameStage::RemoveTarget, Reply::Finished(Ok(()))) => self.proceed(
                RenameStage::RenameAgain,
            ),
            (
                RenameStage::RemoveTarget | RenameStage::RenameAgain,
                Reply::Finished(Err(error)),
            ) => Outcome::Done(Err(Error::Io(error))),
            (RenameStage::LocateTrimmed, Reply::Located(Ok(()))) => self.proceed(
                RenameStage::TrimmedIsFile,
            ),
            (RenameStage::TrimmedIsFile, Reply::Answer(is_file)) => {
                if is_file {
                    Outcome::Done(Err(Error::Wasi(WasiError::ENOTDIR)))
                } else {
                    Outcome::Done(Err(Error::Winx(WinError { code: ERROR_INVALID_NAME })))
                }
            },
            _ => Outcome::Continue(self),
        }
    }
}

/// Renames what is at one path to another. On every host this ends after at most
/// nine replies, with [`path_rename_result`].
pub fn path_rename(resolved_old: PathGet, resolved_new: PathGet) -> (call: PathRename)
    ensures
        call == (PathRename {
            old_path: resolved_old,
            new_path: resolved_new,
            stage: RenameStage::LocateSource,
        }),
        forall|host: Host, n: nat| #[trigger]
            host::run(call, host, n, 9) == Some(
                path_rename_result(resolved_old, resolved_new, host, n),
            ),
{
    let call = PathRename {
        old_path: resolved_old,
        new_path: resolved_new,
        stage: RenameStage::LocateSource,
    };
    proof {
        assert forall|host: Host, n: nat| #[trigger]
            host::run(call, host, n, 9) == Some(
                path_rename_result(resolved_old, resolved_new, host, n),
            ) by {
            path_rename_ends(call, host, n);
        }
    }
    call
}

/// What `path_rename` returns on a host where the rename failed, from then on.
pub open spec fn rename_failed_result(
    old_path: PathGet,
    error: OsError,
    host: Host,
    n: nat,
) -> Result<(), Error> {
    match error.spec_win_error() {
        None => Err(Error::Wasi(WasiError::EIO)),
        Some(win) => if win.code == ERROR_ACCESS_DENIED {
            let removed = (host.remove_dir)(n + 1, Slot::Target);
            let renamed = (host.rename)(n + 2, Slot::Source, Slot::Target);
            if (host.is_file)(n, Slot::Source) {
                Err(Error::Wasi(WasiError::EISDIR))
            } else if removed is Err {
                Err(Error::Io(removed->Err_0))
            } else if renamed is Err {
                Err(Error::Io(renamed->Err_0))
            } else {
                Ok(())
            }
        } else if win.code == ERROR_INVALID_NAME && path::ends_with_slash(old_path.path@) {
            let located = (host.concatenate)(
                n,
                old_path.dirfd,
                path::trim_slashes(old_path.path@),
                Slot::Trimmed,
            );
            if located is Err {
                Err(located->Err_0)
            } else if (host.is_file)(n + 1, Slot::Trimmed) {
                Err(Error::Wasi(WasiError::ENOTDIR))
            } else {
                Err(Error::Winx(win))
            }
        } else {
            Err(Error::Winx(win))
        },
    }
}

/// What `path_rename` returns on a host.
pub open spec fn path_rename_result(
    old_path: PathGet,
    new_path: PathGet,
    host: Host,
    n: nat,
) -> Result<(), Error> {
    let source = (host.concatenate)(n, old_path.dirfd, old_path.path@, Slot::Source);
    let target = (host.concatenate)(n + 1, new_path.dirfd, new_path.path@, Slot::Target);
    let source_is_dir = (host.is_dir)(n + 2, Slot::Source);
    let checked = if source_is_dir {
        n + 4
    } else {
        n + 3
    };
    let renamed = (host.rename)(checked + 1, Slot::Source, Slot::Target);
    if source is Err {
        Err(source->Err_0)
    } else if target is Err {
        Err(target->Err_0)
    } else if source_is_dir && (host.is_file)(n + 3, Slot::Target) {
        Err(Error::Wasi(WasiError::ENOTDIR))
    } else if (host.is_file)(checked, Slot::Source) && path::ends_with_slash(new_path.path@) {
        Err(Error::Wasi(WasiError::ENOTDIR))
    } else if renamed is Err {
        rename_failed_result(old_path, renamed->Err_0, host, checked + 2)
    } else {
        Ok(())
    }
}

/// On every host `path_rename` ends after at most nine replies, with its result.
pub proof fn path_rename_ends(call: PathRename, host: Host, n: nat)
    requires
        call.stage == RenameStage::LocateSource,
    ensures
        host::run(call, host, n, 9) == Some(
            path_rename_result(call.old_path, call.new_path, host, n),
        ),
{
    reveal_with_fuel(host::run, 10);
}

/// A rename that is refused, because a directory would take the place of a file
/// or a file would get a name that ends in a slash, changes nothing: neither a
/// rename nor a removal is asked for.
pub proof fn a_refused_rename_changes_nothing(call: PathRename, host: Host, n: nat)
    requires
        call.stage == RenameStage::LocateSource,
        ({
            let source_is_dir = (host.is_dir)(n + 2, Slot::Source);
            let checked = if source_is_dir {
                n + 4
            } else {
                n + 3
            };
            ||| source_is_dir && (host.is_file)(n + 3, Slot::Target)
            ||| (host.is_file)(checked, Slot::Source) && path::ends_with_slash(
                call.new_path.path@,
            )
        }),
    ensures
        ({
            let made = host::requests(call, host, n, 9);
            forall|i: int|
                0 <= i < made.len() ==> !(#[trigger] made[i] is Rename) && !(made[i] is RemoveDir)
        }),
{
    reveal_with_fuel(host::requests, 10);
}

/// `path_rename` removes a directory only to make room: the directory at the new
/// path, right after a rename was denied and the old path was found to be no
/// file.
pub proof fn a_rename_removes_only_to_make_room(call: PathRename, host: Host, n: nat, i: int)
    requires
        call.stage == RenameStage::LocateSource,
        0 <= i < host::requests(call, host, n, 9).len(),
        host::requests(call, host, n, 9)[i] is RemoveDir,
    ensures
        ({
            let made = host::requests(call, host, n, 9);
            let denied = (host.rename)((n + i - 2) as nat, Slot::Source, Slot::Target);
            &&& i >= 2
            &&& made[i] == Request::<Seq<char>>::RemoveDir(Slot::Target)
            &&& made[i - 2] == Request::<Seq<char>>::Rename {
                from: Slot::Source,
                to: Slot::Target,
            }
            &&& denied is Err
            &&& denied->Err_0.spec_win_error() == Some(WinError { code: ERROR_ACCESS_DENIED })
            &&& made[i - 1] == Request::<Seq<char>>::IsFile(Slot::Source)
            &&& !(host.is_file)((n + i - 1) as nat, Slot::Source)
        }),
{
    reveal_with_fuel(host::requests, 10);
}

/// `path_rename` reports success exactly if the last thing that it asked for is to
/// rename the old path to the new one, and the host did that.
pub proof fn success_means_that_the_host_renamed(call: PathRename, host: Host, n: nat, limit: nat)
    requires
        limit > 0,
    ensures
        ({
            let made = host::requests(call, host, n, limit);
            let done = {
                &&& made.last() == Request::<Seq<char>>::Rename {
                    from: Slot::Source,
                    to: Slot::Target,
                }
                &&& host::last_reply(call, host, n, limit) matches Reply::Finished(Ok(_))
            };
            &&& made.len() > 0
            &&& (host::run(call, host, n, limit) matches Some(Ok(_))) <==> done
        }),
    decreases limit,
{
    reveal_with_fuel(host::run, 2);
    host::the_last_reply_comes_last(call, host, n, limit);
    if limit > 1 {
        match call.after(host.answer(n, call.asks())) {
            Outcome::Continue(next) => {
                success_means_that_the_host_renamed(next, host, n + 1, (limit - 1) as nat);
            },
            Outcome::Done(_) => {},
        }
    }
}

/// What `path_rename` renames is the old path, and what it renames it to is the new
/// path: these are located first, and if one cannot be, that failure is the result
/// and nothing else is asked for.
pub proof fn a_rename_is_of_the_old_path_to_the_new(call: PathRename, host: Host, n: nat)
    requires
        call.stage == RenameStage::LocateSource,
    ensures
        ({
            let made = host::requests(call, host, n, 9);
            let result = host::run(call, host, n, 9);
            let old_path = call.old_path;
            let new_path = call.new_path;
            &&& made[0] == Request::Concatenate {
                dirfd: old_path.dirfd,
                path: old_path.path@,
                into: Slot::Source,
            }
            &&& match (host.concatenate)(n, old_path.dirfd, old_path.path@, Slot::Source) {
                Err(error) => made.len() == 1 && result == Some(Err::<(), Error>(error)),
                Ok(()) => {
                    &&& made[1] == Request::Concatenate {
                        dirfd: new_path.dirfd,
                        path: new_path.path@,
                        into: Slot::Target,
                    }
                    &&& (host.concatenate)(n + 1, new_path.dirfd, new_path.path@, Slot::Target)
                        matches Err(error) ==> made.len() == 2 && result == Some(
                        Err::<(), Error>(error),
                    )
                },
            }
        }),
{
    reveal_with_fuel(host::run, 10);
    reveal_with_fuel(host::requests, 10);
}

/// Once both paths are located, a rename is held back in two cases only: the old path
/// is a directory and the new one a file, or the old path is a file and the new one
/// ends in a slash. The result is `ENOTDIR` then. In every other case the rename is
/// asked for, and if the host does it, that is all.
pub proof fn a_rename_is_held_back_in_two_cases_only(call: PathRename, host: Host, n: nat)
    requires
        call.stage == RenameStage::LocateSource,
        (host.concatenate)(n, call.old_path.dirfd, call.old_path.path@, Slot::Source) is Ok,
        (host.concatenate)(n + 1, call.new_path.dirfd, call.new_path.path@, Slot::Target) is Ok,
    ensures
        ({
            let made = host::requests(call, host, n, 9);
            let result = host::run(call, host, n, 9);
            let new_path = call.new_path.path@;
            let source_is_dir = (host.is_dir)(n + 2, Slot::Source);
            let place: nat = if source_is_dir {
                5
            } else {
                4
            };
            let held_back = {
                ||| source_is_dir && (host.is_file)(n + 3, Slot::Target)
                ||| (host.is_file)((n + place - 1) as nat, Slot::Source) && new_path.len() > 0
                    && new_path.last() == '/'
            };
            &&& held_back ==> {
                &&& result == Some(Err::<(), Error>(Error::Wasi(WasiError::ENOTDIR)))
                &&& forall|i: int|
                    0 <= i < made.len() ==> {
                        ||| #[trigger] made[i] is Concatenate
                        ||| made[i] is IsDir
                        ||| made[i] is IsFile
                    }
            }
            &&& !held_back ==> {
                &&& made.len() > place
                &&& made[place as int] == Request::<Seq<char>>::Rename {
                    from: Slot::Source,
                    to: Slot::Target,
                }
                &&& (host.rename)(n + place, Slot::Source, Slot::Target) is Ok ==> {
                    &&& made.len() == place + 1
                    &&& result == Some(Ok::<(), Error>(()))
                }
            }
        }),
{
    reveal_with_fuel(host::run, 10);
    reveal_with_fuel(host::requests, 10);
}

/// What becomes of a rename that failed depends on the operating system's number. Without
/// one the result is `EIO`. If access was denied, a file gets `EISDIR`; for anything else
/// the directory in the way is removed and the rename asked for once more, and the first
/// of the two that fails is the result. If the name was invalid and ends in a slash, and a
/// file is there without the slash, it is `ENOTDIR`. Every other failure is passed on.
pub proof fn a_failed_rename_is_explained_by_its_number(
    call: PathRename,
    host: Host,
    n: nat,
    error: OsError,
)
    requires
        call.stage == RenameStage::Rename,
        (host.rename)(n, Slot::Source, Slot::Target) == Err::<(), OsError>(error),
    ensures
        ({
            let made = host::requests(call, host, n, 4);
            let result = host::run(call, host, n, 4);
            let old_path = call.old_path.path@;
            match error.raw_os_error {
                None => {
                    &&& made.len() == 1
                    &&& result == Some(Err::<(), Error>(Error::Wasi(WasiError::EIO)))
                },
                Some(5) => {
                    &&& made[1] == Request::<Seq<char>>::IsFile(Slot::Source)
                    &&& (host.is_file)(n + 1, Slot::Source) ==> {
                        &&& made.len() == 2
                        &&& result == Some(Err::<(), Error>(Error::Wasi(WasiError::EISDIR)))
                    }
                    &&& !(host.is_file)(n + 1, Slot::Source) ==> {
                        &&& made[2] == Request::<Seq<char>>::RemoveDir(Slot::Target)
                        &&& match (host.remove_dir)(n + 2, Slot::Target) {
                            Err(error) => {
                                &&& made.len() == 3
                                &&& result == Some(Err::<(), Error>(Error::Io(error)))
                            },
                            Ok(()) => {
                                &&& made.len() == 4
                                &&& made[3] == made[0]
                                &&& match (host.rename)(n + 3, Slot::Source, Slot::Target) {
                                    Err(error) => result == Some(
                                        Err::<(), Error>(Error::Io(error)),
                                    ),
                                    Ok(()) => result == Some(Ok::<(), Error>(())),
                                }
                            },
                        }
                    }
                },
                Some(123) if old_path.len() > 0 && old_path.last() == '/' => {
                    &&& made[1] is Concatenate
                    &&& made[1]->Concatenate_dirfd == call.old_path.dirfd
                    &&& made[1]->Concatenate_into == Slot::Trimmed
                    &&& made[1]->Concatenate_path == path::trim_slashes(old_path)
                    &&& match host.answer(n + 1, made[1]) {
                        Reply::Located(Err(error)) => {
                            &&& made.len() == 2
                            &&& result == Some(Err::<(), Error>(error))
                        },
                        _ => {
                            &&& made.len() == 3
                            &&& made[2] == Request::<Seq<char>>::IsFile(Slot::Trimmed)
                            &&& result == Some(
                                Err::<(), Error>(
                                    if (host.is_file)(n + 2, Slot::Trimmed) {
                                        Error::Wasi(WasiError::ENOTDIR)
                                    } else {
                                        Error::Winx(WinError { code: 123 })
                                    },
                                ),
                            )
                        },
                    }
                },
                Some(number) => {
                    &&& made.len() == 1
                    &&& result == Some(
                        Err::<(), Error>(Error::Winx(WinError::spec_from_u32(number as u32))),
                    )
                },
            }
        }),
{
    reveal_with_fuel(host::run, 5);
    reveal_with_fuel(host::requests, 5);
    crate::error::a_failure_keeps_its_number_if_it_has_a_name(error);
}

/// From the request to rename on, `path_rename` goes on as one that has come to that
/// request does: what led there makes no difference.
pub proof fn a_rename_goes_on_from_its_request(call: PathRename, host: Host, n: nat)
    requires
        call.stage == RenameStage::LocateSource,
        ({
            let made = host::requests(call, host, n, 9);
            let place: int = if (host.is_dir)(n + 2, Slot::Source) {
                5
            } else {
                4
            };
            made.len() > place && made[place] is Rename
        }),
    ensures
        ({
            let place: nat = if (host.is_dir)(n + 2, Slot::Source) {
                5
            } else {
                4
            };
            let renaming = PathRename { stage: RenameStage::Rename, ..call };
            let made = host::requests(call, host, n, 9);
            &&& host::run(call, host, n, 9) == host::run(renaming, host, n + place, 4)
            &&& made.skip(place as int) == host::requests(renaming, host, n + place, 4)
        }),
{
    reveal_with_fuel(host::run, 10);
    reveal_with_fuel(host::requests, 10);
}

/// Every request of `path_rename` finds its paths and its handle ready.
pub proof fn path_rename_finds_ready(call: PathRename, host: Host, n: nat)
    requires
        call.stage == RenameStage::LocateSource,
    ensures
        host::finds_ready(
            call,
            host,
            n,
            9,
            host::ready_with(set![call.old_path.dirfd, call.new_path.dirfd]),
        ),
{
    reveal_with_fuel(host::finds_ready, 10);
}

} // verus!
