//! Creating a symbolic link.
use crate::error::{
    Error, OsError, WasiError, WinError, ERROR_ACCESS_DENIED, ERROR_INVALID_NAME,
    ERROR_NOT_A_REPARSE_POINT,
};
use crate::host::{self, Host, Hostcall, Outcome, Reply, Request, Slot};
use crate::path::{self, strip_trailing_slashes_and_concatenate, PathGet};
use vstd::prelude::*;

verus! {

/// What `path_symlink` waits for.
#[derive(Clone, Copy, Debug, PartialEq, Eq)]
pub enum SymlinkStage {
    /// The path that the link points to, joined to the directory's.
    LocateSource,
    /// The path of the link, joined to the directory's.
    LocateTarget,
    /// The link to a file.
    LinkFile,
    /// The link to a directory.
    LinkDir,
    /// Whether something is at the path of the link, now that access was denied.
    DeniedTargetExists,
    /// The path of the link without its trailing slashes, joined to the
    /// directory's.
    LocateTrimmed,
    /// Whether something is at that path.
    TrimmedExists,
}

/// `path_symlink` under way.
#[derive(Debug, PartialEq, Eq)]
pub struct PathSymlink {
    pub old_path: String,
    pub resolved: PathGet,
    pub stage: SymlinkStage,
}

impl PathSymlink {
    /// The hostcall, waiting for something else.
    pub open spec fn at(self, stage: SymlinkStage) -> Outcome<PathSymlink, ()> {
        Outcome::Continue(PathSymlink { stage, ..self })
    }

    /// What a link to a file that could not be created leads to.
    ///
    /// If what the link points to is a directory, a link to a directory is
    /// created. The other failures may mean that something is at the path
    /// already, perhaps under a name without the slash at its end.
    pub open spec fn spec_link_failed(self, error: OsError) -> Outcome<PathSymlink, ()> {
        match error.spec_win_error() {
            None => Outcome::Done(Err(Error::Wasi(WasiError::EIO))),
            Some(win) => if win.code == ERROR_NOT_A_REPARSE_POINT {
                self.at(SymlinkStage::LinkDir)
            } else if win.code == ERROR_ACCESS_DENIED {
                self.at(SymlinkStage::DeniedTargetExists)
            } else if win.code == ERROR_INVALID_NAME && path::ends_with_slash(
                self.resolved.path@,
            ) {
                self.at(SymlinkStage::LocateTrimmed)
            } else {
                Outcome::Done(Err(Error::Winx(win)))
            },
        }
    }

    fn proceed(self, stage: SymlinkStage) -> (outcome: Outcome<PathSymlink, ()>)
        ensures
            outcome == self.at(stage),
    {
        Outcome::Continue(PathSymlink { stage, ..self })
    }

    fn link_failed(self, error: OsError) -> (outcome: Outcome<PathSymlink, ()>)
        ensures
            outcome == self.spec_link_failed(error),
    {
        let win = match error.win_error() {
            None => return Outcome::Done(Err(Error::Wasi(WasiError::EIO))),
            Some(win) => win,
        };
        if win.code == ERROR_NOT_A_REPARSE_POINT {
            self.proceed(SymlinkStage::LinkDir)
        } else if win.code == ERROR_ACCESS_DENIED {
            self.proceed(SymlinkStage::DeniedTargetExists)
        } else if win.code == ERROR_INVALID_NAME && self.resolved.has_trailing_slash() {
            self.proceed(SymlinkStage::LocateTrimmed)
        } else {
            Outcome::Done(Err(Error::Winx(win)))
        }
    }
}

impl Hostcall for PathSymlink {
    type Output = ();

    open spec fn asks(self) -> Request<Seq<char>> {
        match self.stage {
            SymlinkStage::LocateSource => Request::Concatenate {
                dirfd: self.resolved.dirfd,
                path: self.old_path@,
                into: Slot::Source,
            },
            SymlinkStage::LocateTarget => self.resolved.spec_concatenate(Slot::Target),
            SymlinkStage::LinkFile => Request::SymlinkFile {
                target: Slot::Source,
                link: Slot::Target,
            },
            SymlinkStage::LinkDir => Request::SymlinkDir {
                target: Slot::Source,
                link: Slot::Target,
            },
            SymlinkStage::DeniedTargetExists => Request::Exists(Slot::Target),
            SymlinkStage::LocateTrimmed => self.resolved.spec_concatenate_trimmed(),
            SymlinkStage::TrimmedExists => Request::Exists(Slot::Trimmed),
        }
    }

    open spec fn after(self, reply: Reply) -> Outcome<Self, ()> {
        match (self.stage, reply) {
            (SymlinkStage::LocateSource, Reply::Located(Ok(()))) => self.at(
                SymlinkStage::LocateTarget,
            ),
            (SymlinkStage::LocateSource, Reply::Located(Err(error))) => Outcome::Done(Err(error)),
            (SymlinkStage::LocateTarget, Reply::Located(Ok(()))) => self.at(
                SymlinkStage::LinkFile,
            ),
            (SymlinkStage::LocateTarget, Reply::Located(Err(error))) => Outcome::Done(Err(error)),
            (SymlinkStage::LinkFile, Reply::Finished(Ok(()))) => Outcome::Done(Ok(())),
            (SymlinkStage::LinkFile, Reply::Finished(Err(error))) => self.spec_link_failed(error),
            (SymlinkStage::LinkDir, Reply::Finished(Ok(()))) => Outcome::Done(Ok(())),
            (SymlinkStage::LinkDir, Reply::Finished(Err(error))) => Outcome::Done(
                Err(Error::Io(error)),
            ),
            (SymlinkStage::DeniedTargetExists, Reply::Answer(true)) => Outcome::Done(
                Err(Error::Wasi(WasiError::EEXIST)),
            ),
            (SymlinkStage::DeniedTargetExists, Reply::Answer(false)) => Outcome::Done(
                Err(Error::Winx(WinError { code: ERROR_ACCESS_DENIED })),
            ),
            (SymlinkStage::LocateTrimmed, Reply::Located(Ok(()))) => self.at(
                SymlinkStage::TrimmedExists,
            ),
            (SymlinkStage::LocateTrimmed, Reply::Located(Err(error))) => Outcome::Done(Err(error)),
            (SymlinkStage::TrimmedExists, Reply::Answer(true)) => Outcome::Done(
                Err(Error::Wasi(WasiError::EEXIST)),
            ),
            (SymlinkStage::TrimmedExists, Reply::Answer(false)) => Outcome::Done(
                Err(Error::Winx(WinError { code: ERROR_INVALID_NAME })),
            ),
            _ => Outcome::Continue(self),
        }
    }

    proof fn other_replies_change_nothing(self, reply: Reply) {
    }

    fn request(&self) -> Request<String> {
        match self.stage {
            SymlinkStage::LocateSource => Request::Concatenate {
                dirfd: self.resolved.dirfd,
                path: self.old_path.clone(),
                into: Slot::Source,
            },
            SymlinkStage::LocateTarget => self.resolved.concatenate(Slot::Target),
            SymlinkStage::LinkFile => Request::SymlinkFile {
                target: Slot::Source,
                link: Slot::Target,
            },
            SymlinkStage::LinkDir => Request::SymlinkDir {
                target: Slot::Source,
                link: Slot::Target,
            },
            SymlinkStage::DeniedTargetExists => Request::Exists(Slot::Target),
            SymlinkStage::LocateTrimmed => match strip_trailing_slashes_and_concatenate(
                &self.resolved,
            ) {
                Some(request) => request,
                None => self.resolved.concatenate(Slot::Trimmed),
            },
            SymlinkStage::TrimmedExists => Request::Exists(Slot::Trimmed),
        }
    }

    fn resume(self, reply: Reply) -> Outcome<Self, ()> {
        match (self.stage, reply) {
            (
                SymlinkStage::LocateSource
                | SymlinkStage::LocateTarget
                | SymlinkStage::LocateTrimmed,
                Reply::Located(Err(error)),
            ) => Outcome::Done(Err(error)),
            (SymlinkStage::LocateSource, Reply::Located(Ok(()))) => self.proceed(
                SymlinkStage::LocateTarget,
            ),
            (SymlinkStage::LocateTarget, Reply::Located(Ok(()))) => self.proceed(
                SymlinkStage::LinkFile,
            ),
            (SymlinkStage::LinkFile | SymlinkStage::LinkDir, Reply::Finished(Ok(()))) =>
                Outcome::Done(Ok(())),
            (SymlinkStage::LinkFile, Reply::Finished(Err(error))) => self.link_failed(error),
            (SymlinkStage::LinkDir, Reply::Finished(Err(error))) => Outcome::Done(
                Err(Error::Io(error)),
            ),
            (SymlinkStage::DeniedTargetExists, Reply::Answer(exists_there)) => {
                if exists_there {
                    Outcome::Done(Err(Error::Wasi(WasiError::EEXIST)))
                } else {
                    Outcome::Done(Err(Error::Winx(WinError { code: ERROR_ACCESS_DENIED })))
                }
            },
            (SymlinkStage::LocateTrimmed, Reply::Located(Ok(()))) => self.proceed(
                SymlinkStage::TrimmedExists,
            ),
            (SymlinkStage::TrimmedExists, Reply::Answer(exists_there)) => {
                if exists_there {
                    Outcome::Done(Err(Error::Wasi(WasiError::EEXIST)))
                } else {
                    Outcome::Done(Err(Error::Winx(WinError { code: ERROR_INVALID_NAME })))
                }
            },
            _ => Outcome::Continue(self),
        }
    }
}

/// Creates a link at `resolved` that points to `old_path`, a path relative to the
/// same directory. On every host this ends after at most five replies, with
/// [`path_symlink_result`].
pub fn path_symlink(old_path: &str, resolved: PathGet) -> (call: PathSymlink)
    ensures
        call.old_path@ == old_path@,
        call.resolved == resolved,
        call.stage == SymlinkStage::LocateSource,
        forall|host: Host, n: nat| #[trigger]
            host::run(call, host, n, 5) == Some(path_symlink_result(old_path@, resolved, host, n)),
{
    let call = PathSymlink {
        old_path: old_path.to_owned(),
        resolved,
        stage: SymlinkStage::LocateSource,
    };
    proof {
        assert forall|host: Host, n: nat| #[trigger]
            host::run(call, host, n, 5) == Some(
                path_symlink_result(old_path@, resolved, host, n),
            ) by {
            path_symlink_ends(call, host, n);
        }
    }
    call
}

/// What `path_symlink` returns on a host.
pub open spec fn path_symlink_result(
    old_path: Seq<char>,
    resolved: PathGet,
    host: Host,
    n: nat,
) -> Result<(), Error> {
    let source = (host.concatenate)(n, resolved.dirfd, old_path, Slot::Source);
    let target = (host.concatenate)(n + 1, resolved.dirfd, resolved.path@, Slot::Target);
    let linked = (host.symlink_file)(n + 2, Slot::Source, Slot::Target);
    if source is Err {
        Err(source->Err_0)
    } else if target is Err {
        Err(target->Err_0)
    } else if linked is Ok {
        Ok(())
    } else {
        match linked->Err_0.spec_win_error() {
            None => Err(Error::Wasi(WasiError::EIO)),
            Some(win) => if win.code == ERROR_NOT_A_REPARSE_POINT {
                match (host.symlink_dir)(n + 3, Slot::Source, Slot::Target) {
                    Ok(()) => Ok(()),
                    Err(error) => Err(Error::Io(error)),
                }
            } else if win.code == ERROR_ACCESS_DENIED && (host.exists_at)(n + 3, Slot::Target) {
                Err(Error::Wasi(WasiError::EEXIST))
            } else if win.code == ERROR_INVALID_NAME && path::ends_with_slash(resolved.path@) {
                let trimmed = (host.concatenate)(
                    n + 3,
                    resolved.dirfd,
                    path::trim_slashes(resolved.path@),
                    Slot::Trimmed,
                );
                if trimmed is Err {
                    Err(trimmed->Err_0)
                } else if (host.exists_at)(n + 4, Slot::Trimmed) {
                    Err(Error::Wasi(WasiError::EEXIST))
                } else {
                    Err(Error::Winx(win))
                }
            } else {
                Err(Error::Winx(win))
            },
        }
    }
}

/// On every host `path_symlink` ends after at most five replies, with its result.
pub proof fn path_symlink_ends(call: PathSymlink, host: Host, n: nat)
    requires
        call.stage == SymlinkStage::LocateSource,
    ensures
        host::run(call, host, n, 5) == Some(
            path_symlink_result(call.old_path@, call.resolved, host, n),
        ),
{
    reveal_with_fuel(host::run, 6);
}

/// `path_symlink` asks for a link to a directory only right after a link to a
/// file failed because what it points to is none.
pub proof fn a_directory_link_is_the_second_choice(
    call: PathSymlink,
    host: Host,
    n: nat,
    i: int,
)
    requires
        call.stage == SymlinkStage::LocateSource,
        0 <= i < host::requests(call, host, n, 5).len(),
        host::requests(call, host, n, 5)[i] is SymlinkDir,
    ensures
        ({
            let made = host::requests(call, host, n, 5);
            let linked = (host.symlink_file)((n + i - 1) as nat, Slot::Source, Slot::Target);
            &&& i >= 1
            &&& made[i] == Request::<Seq<char>>::SymlinkDir {
                target: Slot::Source,
                link: Slot::Target,
            }
            &&& made[i - 1] == Request::<Seq<char>>::SymlinkFile {
                target: Slot::Source,
                link: Slot::Target,
            }
            &&& linked is Err
            &&& linked->Err_0.spec_win_error() == Some(
                WinError { code: ERROR_NOT_A_REPARSE_POINT },
            )
        }),
{
    reveal_with_fuel(host::requests, 6);
}

/// `path_symlink` reports success exactly if the last thing that it asked for is a
/// link at the new path that points to the old one, and the host created it.
pub proof fn success_means_that_the_host_linked(call: PathSymlink, host: Host, n: nat, limit: nat)
    requires
        limit > 0,
    ensures
        ({
            let made = host::requests(call, host, n, limit);
            let file_link = Request::<Seq<char>>::SymlinkFile {
                target: Slot::Source,
                link: Slot::Target,
            };
            let dir_link = Request::<Seq<char>>::SymlinkDir {
                target: Slot::Source,
                link: Slot::Target,
            };
            let done = {
                &&& made.last() == file_link || made.last() == dir_link
                &&& host::last_reply(call, host, n, limit) matches Reply::Finished(Ok(_))
            };
            &&& made.len() > 0
            &&& (host::run(call, host, n, limit) matches Some(Ok(_))) <==> done
        }),
    decreases limit,
{
    reveal_with_fuel(host::run, 2);
    host::the_last_reply_comes_last(call, host, n, limit);
    if limit > 1 {
        match call.after(host.answer(n, call.asks())) {
            Outcome::Continue(next) => {
                success_means_that_the_host_linked(next, host, n + 1, (limit - 1) as nat);
            },
            Outcome::Done(_) => {},
        }
    }
}

/// What the link points to is the old path and where it stands is the new one, both in
/// the directory of the new one: these are located first. If one cannot be, that
/// failure is the result; if both are, a link to a file is asked for, and if the host
/// creates it, that is all.
pub proof fn a_link_points_from_the_new_path_to_the_old(call: PathSymlink, host: Host, n: nat)
    requires
        call.stage == SymlinkStage::LocateSource,
    ensures
        ({
            let made = host::requests(call, host, n, 5);
            let result = host::run(call, host, n, 5);
            let dirfd = call.resolved.dirfd;
            &&& made[0] == Request::Concatenate {
                dirfd,
                path: call.old_path@,
                into: Slot::Source,
            }
            &&& match (host.concatenate)(n, dirfd, call.old_path@, Slot::Source) {
                Err(error) => made.len() == 1 && result == Some(Err::<(), Error>(error)),
                Ok(()) => {
                    &&& made[1] == Request::Concatenate {
                        dirfd,
                        path: call.resolved.path@,
                        into: Slot::Target,
                    }
                    &&& match (host.concatenate)(
                        n + 1,
                        dirfd,
                        call.resolved.path@,
                        Slot::Target,
                    ) {
                        Err(error) => made.len() == 2 && result == Some(Err::<(), Error>(error)),
                        Ok(()) => {
                            &&& made[2] == Request::<Seq<char>>::SymlinkFile {
                                target: Slot::Source,
                                link: Slot::Target,
                            }
                            &&& (host.symlink_file)(n + 2, Slot::Source, Slot::Target) is Ok ==> {
                                &&& made.len() == 3
                                &&& result == Some(Ok::<(), Error>(()))
                            }
                        },
                    }
                },
            }
        }),
{
    reveal_with_fuel(host::run, 6);
    reveal_with_fuel(host::requests, 6);
}

/// What becomes of a link to a file that could not be created depends on the operating
/// system's number. Without one the result is `EIO`. If the old path is no file, a link
/// to a directory is asked for, and the result is that of this. If access was denied
/// and something is at the new path, or the name was invalid, ends in a slash, and
/// something is there without the slash, it is `EEXIST`. Every other failure is passed
/// on.
pub proof fn a_failed_link_is_explained_by_its_number(
    call: PathSymlink,
    host: Host,
    n: nat,
    error: OsError,
)
    requires
        call.stage == SymlinkStage::LocateSource,
        (host.concatenate)(n, call.resolved.dirfd, call.old_path@, Slot::Source) is Ok,
        (host.concatenate)(n + 1, call.resolved.dirfd, call.resolved.path@, Slot::Target) is Ok,
        (host.symlink_file)(n + 2, Slot::Source, Slot::Target) == Err::<(), OsError>(error),
    ensures
        ({
            let made = host::requests(call, host, n, 5);
            let result = host::run(call, host, n, 5);
            let new_path = call.resolved.path@;
            match error.raw_os_error {
                None => {
                    &&& made.len() == 3
                    &&& result == Some(Err::<(), Error>(Error::Wasi(WasiError::EIO)))
                },
                Some(4390) => {
                    &&& made.len() == 4
                    &&& made[3] == Request::<Seq<char>>::SymlinkDir {
                        target: Slot::Source,
                        link: Slot::Target,
                    }
                    &&& match (host.symlink_dir)(n + 3, Slot::Source, Slot::Target) {
                        Err(error) => result == Some(Err::<(), Error>(Error::Io(error))),
                        Ok(()) => result == Some(Ok::<(), Error>(())),
                    }
                },
                Some(5) => {
                    &&& made.len() == 4
                    &&& made[3] == Request::<Seq<char>>::Exists(Slot::Target)
                    &&& result == Some(
                        Err::<(), Error>(
                            if (host.exists_at)(n + 3, Slot::Target) {
                                Error::Wasi(WasiError::EEXIST)
                            } else {
                                Error::Winx(WinError { code: 5 })
                            },
                        ),
                    )
                },
                Some(123) if new_path.len() > 0 && new_path.last() == '/' => {
                    &&& made[3] is Concatenate
                    &&& made[3]->Concatenate_dirfd == call.resolved.dirfd
                    &&& made[3]->Concatenate_into == Slot::Trimmed
                    &&& made[3]->Concatenate_path == path::trim_slashes(new_path)
                    &&& match host.answer(n + 3, made[3]) {
                        Reply::Located(Err(error)) => {
                            &&& made.len() == 4
                            &&& result == Some(Err::<(), Error>(error))
                        },
                        _ => {
                            &&& made.len() == 5
                            &&& made[4] == Request::<Seq<char>>::Exists(Slot::Trimmed)
                            &&& result == Some(
                                Err::<(), Error>(
                                    if (host.exists_at)(n + 4, Slot::Trimmed) {
                                        Error::Wasi(WasiError::EEXIST)
                                    } else {
                                        Error::Winx(WinError { code: 123 })
                                    },
                                ),
                            )
                        },
                    }
                },
                Some(number) => {
                    &&& made.len() == 3
                    &&& result == Some(
                        Err::<(), Error>(Error::Winx(WinError::spec_from_u32(number as u32))),
                    )
                },
            }
        }),
{
    reveal_with_fuel(host::run, 6);
    reveal_with_fuel(host::requests, 6);
    crate::error::a_failure_keeps_its_number_if_it_has_a_name(error);
}

/// Every request of `path_symlink` finds its paths and its handle ready.
pub proof fn path_symlink_finds_ready(call: PathSymlink, host: Host, n: nat)
    requires
        call.stage == SymlinkStage::LocateSource,
    ensures
        host::finds_ready(call, host, n, 5, host::ready_with(set![call.resolved.dirfd])),
{
    reveal_with_fuel(host::finds_ready, 6);
}

} // verus!
