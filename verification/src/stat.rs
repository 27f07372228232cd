//! Reading the attributes of a file, and setting its times.
use crate::error::Error;
use crate::host::{self, Handle, Host, Hostcall, OpenSpec, Outcome, Reply, Request, Slot};
use crate::path::PathGet;
use crate::rights::{AccessMode, FILE_WRITE_ATTRIBUTES};
use crate::wasi::{Filestat, FstFlags, LookupFlags, Timestamp};
use vstd::prelude::*;

verus! {

/// `path_filestat_get` or `fd_filestat_get` under way.
#[derive(Debug, PartialEq, Eq)]
pub enum FilestatGet {
    /// Waits for the path joined to its directory's.
    Locate(PathGet),
    /// Waits for the open file.
    Open,
    /// Waits for the attributes of an open file.
    Stat(Handle),
}

/// How a file is opened to be read.
pub open spec fn read_only() -> OpenSpec {
    OpenSpec {
        read: true,
        write: false,
        create: false,
        create_new: false,
        truncate: false,
        access_mode: None,
        custom_flags: None,
    }
}

/// How a file is opened to have its attributes written.
pub open spec fn attributes_only() -> OpenSpec {
    OpenSpec {
        read: false,
        write: false,
        create: false,
        create_new: false,
        truncate: false,
        access_mode: Some(AccessMode { bits: FILE_WRITE_ATTRIBUTES }),
        custom_flags: None,
    }
}

impl Hostcall for FilestatGet {
    type Output = Filestat;

    open spec fn asks(self) -> Request<Seq<char>> {
        match self {
            FilestatGet::Locate(resolved) => resolved.spec_concatenate(Slot::Target),
            FilestatGet::Open => Request::Open { at: Slot::Target, options: read_only() },
            FilestatGet::Stat(file) => Request::Filestat(file),
        }
    }

    open spec fn after(self, reply: Reply) -> Outcome<Self, Filestat> {
        match (self, reply) {
            (FilestatGet::Locate(_), Reply::Located(Ok(()))) => Outcome::Continue(
                FilestatGet::Open,
            ),
            (FilestatGet::Locate(_), Reply::Located(Err(error))) => Outcome::Done(Err(error)),
            (FilestatGet::Open, Reply::Opened(Ok(file))) => Outcome::Continue(
                FilestatGet::Stat(file),
            ),
            (FilestatGet::Open, Reply::Opened(Err(error))) => Outcome::Done(
                Err(Error::Io(error)),
            ),
            (FilestatGet::Stat(_), Reply::Stat(result)) => Outcome::Done(result),
            _ => Outcome::Continue(self),
        }
    }

    proof fn other_replies_change_nothing(self, reply: Reply) {
    }

    fn request(&self) -> Request<String> {
        match self {
            FilestatGet::Locate(resolved) => resolved.concatenate(Slot::Target),
            FilestatGet::Open => Request::Open {
                at: Slot::Target,
                options: OpenSpec {
                    read: true,
                    write: false,
                    create: false,
                    create_new: false,
                    truncate: false,
                    access_mode: None,
                    custom_flags: None,
                },
            },
            FilestatGet::Stat(file) => Request::Filestat(*file),
        }
    }

    fn resume(self, reply: Reply) -> Outcome<Self, Filestat> {
        match (self, reply) {
            (FilestatGet::Locate(_), Reply::Located(Ok(()))) => Outcome::Continue(
                FilestatGet::Open,
            ),
            (FilestatGet::Locate(_), Reply::Located(Err(error))) => Outcome::Done(Err(error)),
            (FilestatGet::Open, Reply::Opened(Ok(file))) => Outcome::Continue(
                FilestatGet::Stat(file),
            ),
            (FilestatGet::Open, Reply::Opened(Err(error))) => Outcome::Done(
                Err(Error::Io(error)),
            ),
            (FilestatGet::Stat(_), Reply::Stat(result)) => Outcome::Done(result),
            (call, _) => Outcome::Continue(call),
        }
    }
}

/// Reads the attributes of the file at a path. Nothing is made of the lookup
/// flags. On every host this ends after at most three replies, with
/// [`path_filestat_get_result`].
pub fn path_filestat_get(resolved: PathGet, _dirflags: LookupFlags) -> (call: FilestatGet)
    ensures
        call == FilestatGet::Locate(resolved),
        forall|host: Host, n: nat| #[trigger]
            host::run(call, host, n, 3) == Some(path_filestat_get_result(resolved, host, n)),
{
    let call = FilestatGet::Locate(resolved);
    proof {
        assert forall|host: Host, n: nat| #[trigger]
            host::run(call, host, n, 3) == Some(path_filestat_get_result(resolved, host, n)) by {
            path_filestat_get_ends(resolved, host, n);
        }
    }
    call
}

/// Reads the attributes of an open file. On every host this ends after one reply,
/// with what the host found.
pub fn fd_filestat_get(file: Handle) -> (call: FilestatGet)
    ensures
        call == FilestatGet::Stat(file),
        forall|host: Host, n: nat| #[trigger]
            host::run(call, host, n, 1) == Some((host.filestat)(n, file)),
{
    let call = FilestatGet::Stat(file);
    proof {
        assert forall|host: Host, n: nat| #[trigger]
            host::run(call, host, n, 1) == Some((host.filestat)(n, file)) by {
            fd_filestat_get_ends(file, host, n);
        }
    }
    call
}

/// What `path_filestat_get` returns on a host.
pub open spec fn path_filestat_get_result(resolved: PathGet, host: Host, n: nat) -> Result<
    Filestat,
    Error,
> {
    let located = (host.concatenate)(n, resolved.dirfd, resolved.path@, Slot::Target);
    let opened = (host.open_file)(n + 1, Slot::Target, read_only());
    if located is Err {
        Err(located->Err_0)
    } else if opened is Err {
        Err(Error::Io(opened->Err_0))
    } else {
        (host.filestat)(n + 2, opened->Ok_0)
    }
}

/// On every host `path_filestat_get` ends after at most three replies, with its
/// result.
pub proof fn path_filestat_get_ends(resolved: PathGet, host: Host, n: nat)
    ensures
        host::run(FilestatGet::Locate(resolved), host, n, 3) == Some(
            path_filestat_get_result(resolved, host, n),
        ),
{
    reveal_with_fuel(host::run, 4);
}

/// On every host `fd_filestat_get` ends after one reply, with the attributes that
/// the host found.
pub proof fn fd_filestat_get_ends(file: Handle, host: Host, n: nat)
    ensures
        host::run(FilestatGet::Stat(file), host, n, 1) == Some((host.filestat)(n, file)),
{
    reveal_with_fuel(host::run, 2);
}

/// What `path_filestat_set_times` waits for.
#[derive(Clone, Copy, Debug, PartialEq, Eq)]
pub enum SetTimesStage {
    /// The path joined to its directory's.
    Locate,
    /// The open file.
    Open,
    /// The new times on an open file.
    Apply(Handle),
}

/// `path_filestat_set_times` under way.
#[derive(Debug, PartialEq, Eq)]
pub struct PathFilestatSetTimes {
    pub resolved: PathGet,
    pub st_atim: Timestamp,
    pub st_mtim: Timestamp,
    pub fst_flags: FstFlags,
    pub stage: SetTimesStage,
}

impl Hostcall for PathFilestatSetTimes {
    type Output = ();

    open spec fn asks(self) -> Request<Seq<char>> {
        match self.stage {
            SetTimesStage::Locate => self.resolved.spec_concatenate(Slot::Target),
            SetTimesStage::Open => Request::Open {
                at: Slot::Target,
                options: attributes_only(),
            },
            SetTimesStage::Apply(file) => Request::SetTimes {
                file,
                atim: self.st_atim,
                mtim: self.st_mtim,
                fst_flags: self.fst_flags,
            },
        }
    }

    open spec fn after(self, reply: Reply) -> Outcome<Self, ()> {
        match (self.stage, reply) {
            (SetTimesStage::Locate, Reply::Located(Ok(()))) => Outcome::Continue(
                PathFilestatSetTimes { stage: SetTimesStage::Open, ..self },
            ),
            (SetTimesStage::Locate, Reply::Located(Err(error))) => Outcome::Done(Err(error)),
            (SetTimesStage::Open, Reply::Opened(Ok(file))) => Outcome::Continue(
                PathFilestatSetTimes { stage: SetTimesStage::Apply(file), ..self },
            ),
            (SetTimesStage::Open, Reply::Opened(Err(error))) => Outcome::Done(
                Err(Error::Io(error)),
            ),
            (SetTimesStage::Apply(_), Reply::Applied(result)) => Outcome::Done(result),
            _ => Outcome::Continue(self),
        }
    }

    proof fn other_replies_change_nothing(self, reply: Reply) {
    }

    fn request(&self) -> Request<String> {
        match self.stage {
            SetTimesStage::Locate => self.resolved.concatenate(Slot::Target),
            SetTimesStage::Open => Request::Open {
                at: Slot::Target,
                options: OpenSpec {
                    read: false,
                    write: false,
                    create: false,
                    create_new: false,
                    truncate: false,
                    access_mode: Some(AccessMode { bits: FILE_WRITE_ATTRIBUTES }),
                    custom_flags: None,
                },
            },
            SetTimesStage::Apply(file) => Request::SetTimes {
                file,
                atim: self.st_atim,
                mtim: self.st_mtim,
                fst_flags: self.fst_flags,
            },
        }
    }

    fn resume(self, reply: Reply) -> Outcome<Self, ()> {
        match (self.stage, reply) {
            (SetTimesStage::Locate, Reply::Located(Ok(()))) => Outcome::Continue(
                PathFilestatSetTimes { stage: SetTimesStage::Open, ..self },
            ),
            (SetTimesStage::Locate, Reply::Located(Err(error))) => Outcome::Done(Err(error)),
            (SetTimesStage::Open, Reply::Opened(Ok(file))) => Outcome::Continue(
                PathFilestatSetTimes { stage: SetTimesStage::Apply(file), ..self },
            ),
            (SetTimesStage::Open, Reply::Opened(Err(error))) => Outcome::Done(
                Err(Error::Io(error)),
            ),
            (SetTimesStage::Apply(_), Reply::Applied(result)) => Outcome::Done(result),
            _ => Outcome::Continue(self),
        }
    }
}

/// Sets the times of the file at a path. Nothing is made of the lookup flags. On
/// every host this ends after at most three replies, with
/// [`path_filestat_set_times_result`].
pub fn path_filestat_set_times(
    resolved: PathGet,
    _dirflags: LookupFlags,
    st_atim: Timestamp,
    st_mtim: Timestamp,
    fst_flags: FstFlags,
) -> (call: PathFilestatSetTimes)
    ensures
        call == (PathFilestatSetTimes {
            resolved,
            st_atim,
            st_mtim,
            fst_flags,
            stage: SetTimesStage::Locate,
        }),
        forall|host: Host, n: nat| #[trigger]
            host::run(call, host, n, 3) == Some(
                path_filestat_set_times_result(resolved, st_atim, st_mtim, fst_flags, host, n),
            ),
{
    let call = PathFilestatSetTimes {
        resolved,
        st_atim,
        st_mtim,
        fst_flags,
        stage: SetTimesStage::Locate,
    };
    proof {
        assert forall|host: Host, n: nat| #[trigger]
            host::run(call, host, n, 3) == Some(
                path_filestat_set_times_result(resolved, st_atim, st_mtim, fst_flags, host, n),
            ) by {
            path_filestat_set_times_ends(call, host, n);
        }
    }
    call
}

/// What `path_filestat_set_times` returns on a host.
pub open spec fn path_filestat_set_times_result(
    resolved: PathGet,
    st_atim: Timestamp,
    st_mtim: Timestamp,
    fst_flags: FstFlags,
    host: Host,
    n: nat,
) -> Result<(), Error> {
    let located = (host.concatenate)(n, resolved.dirfd, resolved.path@, Slot::Target);
    let opened = (host.open_file)(n + 1, Slot::Target, attributes_only());
    if located is Err {
        Err(located->Err_0)
    } else if opened is Err {
        Err(Error::Io(opened->Err_0))
    } else {
        (host.set_times)(n + 2, opened->Ok_0, st_atim, st_mtim, fst_flags)
    }
}

/// On every host `path_filestat_set_times` ends after at most three replies, with
/// its result.
pub proof fn path_filestat_set_times_ends(call: PathFilestatSetTimes, host: Host, n: nat)
    requires
        call.stage == SetTimesStage::Locate,
    ensures
        host::run(call, host, n, 3) == Some(
            path_filestat_set_times_result(
                call.resolved,
                call.st_atim,
                call.st_mtim,
                call.fst_flags,
                host,
                n,
            ),
        ),
{
    reveal_with_fuel(host::run, 4);
}

/// The attributes that `path_filestat_get` gives are those that the host reads of the
/// file at the path, opened for reading and nothing else. The first thing that fails is
/// the result.
pub proof fn attributes_are_those_of_the_file_at_the_path(resolved: PathGet, host: Host, n: nat)
    ensures
        ({
            let call = FilestatGet::Locate(resolved);
            let made = host::requests(call, host, n, 3);
            let result = host::run(call, host, n, 3);
            let options = made[1]->Open_options;
            &&& made[0] == Request::Concatenate {
                dirfd: resolved.dirfd,
                path: resolved.path@,
                into: Slot::Target,
            }
            &&& match (host.concatenate)(n, resolved.dirfd, resolved.path@, Slot::Target) {
                Err(error) => made.len() == 1 && result == Some(Err::<Filestat, Error>(error)),
                Ok(()) => {
                    &&& made[1] is Open
                    &&& made[1]->Open_at == Slot::Target
                    &&& options.read
                    &&& !options.write && !options.create && !options.create_new
                    &&& !options.truncate
                    &&& options.access_mode is None
                    &&& options.custom_flags is None
                    &&& match (host.open_file)(n + 1, Slot::Target, options) {
                        Err(error) => {
                            &&& made.len() == 2
                            &&& result == Some(Err::<Filestat, Error>(Error::Io(error)))
                        },
                        Ok(file) => {
                            &&& made.len() == 3
                            &&& made[2] == Request::<Seq<char>>::Filestat(file)
                            &&& result == Some((host.filestat)(n + 2, file))
                        },
                    }
                },
            }
        }),
{
    reveal_with_fuel(host::run, 4);
    reveal_with_fuel(host::requests, 4);
}

/// `fd_filestat_get` asks for the attributes of the open file, once, and gives what the
/// host says.
pub proof fn attributes_are_those_of_the_open_file(file: Handle, host: Host, n: nat)
    ensures
        host::requests(FilestatGet::Stat(file), host, n, 1) == seq![
            Request::<Seq<char>>::Filestat(file),
        ],
        host::run(FilestatGet::Stat(file), host, n, 1) == Some((host.filestat)(n, file)),
{
    reveal_with_fuel(host::run, 2);
    reveal_with_fuel(host::requests, 2);
}

/// `path_filestat_set_times` sets the times that it was given, with the flags that it was
/// given, on the file at the path, which it opens with the right to write attributes and
/// no other. The result is what the host says of that; the first thing that fails before
/// is the result otherwise.
pub proof fn times_are_set_on_the_file_at_the_path(
    call: PathFilestatSetTimes,
    host: Host,
    n: nat,
)
    requires
        call.stage == SetTimesStage::Locate,
    ensures
        ({
            let made = host::requests(call, host, n, 3);
            let result = host::run(call, host, n, 3);
            let dirfd = call.resolved.dirfd;
            let path = call.resolved.path@;
            let options = made[1]->Open_options;
            &&& made[0] == Request::Concatenate { dirfd, path, into: Slot::Target }
            &&& match (host.concatenate)(n, dirfd, path, Slot::Target) {
                Err(error) => made.len() == 1 && result == Some(Err::<(), Error>(error)),
                Ok(()) => {
                    &&& made[1] is Open
                    &&& made[1]->Open_at == Slot::Target
                    &&& !options.read && !options.write && !options.create
                    &&& !options.create_new && !options.truncate
                    &&& options.access_mode == Some(AccessMode { bits: 0x100 })
                    &&& options.custom_flags is None
                    &&& match (host.open_file)(n + 1, Slot::Target, options) {
                        Err(error) => {
                            &&& made.len() == 2
                            &&& result == Some(Err::<(), Error>(Error::Io(error)))
                        },
                        Ok(file) => {
                            &&& made.len() == 3
                            &&& made[2] == Request::<Seq<char>>::SetTimes {
                                file,
                                atim: call.st_atim,
                                mtim: call.st_mtim,
                                fst_flags: call.fst_flags,
                            }
                            &&& result == Some(
                                (host.set_times)(
                                    n + 2,
                                    file,
                                    call.st_atim,
                                    call.st_mtim,
                                    call.fst_flags,
                                ),
                            )
                        },
                    }
                },
            }
        }),
{
    reveal_with_fuel(host::run, 4);
    reveal_with_fuel(host::requests, 4);
}

/// Every request of `path_filestat_get` finds its path and its handle ready.
pub proof fn path_filestat_get_finds_ready(resolved: PathGet, host: Host, n: nat)
    ensures
        host::finds_ready(
            FilestatGet::Locate(resolved),
            host,
            n,
            3,
            host::ready_with(set![resolved.dirfd]),
        ),
{
    reveal_with_fuel(host::finds_ready, 4);
}

/// The request of `fd_filestat_get` finds its handle ready.
pub proof fn fd_filestat_get_finds_ready(file: Handle, host: Host, n: nat)
    ensures
        host::finds_ready(FilestatGet::Stat(file), host, n, 1, host::ready_with(set![file])),
{
    reveal_with_fuel(host::finds_ready, 2);
}

/// Every request of `path_filestat_set_times` finds its path and its handle ready.
pub proof fn path_filestat_set_times_finds_ready(
    call: PathFilestatSetTimes,
    host: Host,
    n: nat,
)
    requires
        call.stage == SetTimesStage::Locate,
    ensures
        host::finds_ready(call, host, n, 3, host::ready_with(set![call.resolved.dirfd])),
{
    reveal_with_fuel(host::finds_ready, 4);
}

} // verus!
