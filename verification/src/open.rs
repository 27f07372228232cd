//! Opening a path.
use crate::error::{Error, OsError, WasiError, WinError, ERROR_FILE_NOT_FOUND};
use crate::host::{self, Handle, Host, Hostcall, OpenSpec, Outcome, Reply, Request, Slot};
use crate::path::PathGet;
use crate::rights::{
    self, creation_disposition_from_oflags, file_access_mode_from_fdflags,
    file_flags_from_fdflags, AccessMode, CreationDisposition, Flags, FILE_APPEND_DATA,
    FILE_WRITE_DATA, GENERIC_WRITE,
};
use crate::wasi::{
    FdFlags, FileType, OFlags, __WASI_FDFLAGS_APPEND, __WASI_OFLAGS_CREAT,
    __WASI_OFLAGS_DIRECTORY, __WASI_OFLAGS_EXCL, __WASI_OFLAGS_TRUNC,
};
use vstd::prelude::*;

verus! {

/// What `path_open` waits for.
#[derive(Clone, Copy, Debug, PartialEq, Eq)]
pub enum OpenStage {
    /// The path joined to its directory's.
    Locate,
    /// What the path names.
    Inspect,
    /// The open file.
    Open,
}

/// `path_open` under way.
#[derive(Debug, PartialEq, Eq)]
pub struct PathOpen {
    pub resolved: PathGet,
    pub read: bool,
    pub write: bool,
    pub oflags: OFlags,
    pub fdflags: FdFlags,
    pub stage: OpenStage,
}

/// How `path_open` opens the file.
///
/// `write` is set wherever the standard library asks for it before it creates or
/// truncates a file; the rights are those of `access_mode` either way. To
/// truncate takes `GENERIC_WRITE`.
pub open spec fn open_options(
    read: bool,
    write: bool,
    oflags: OFlags,
    fdflags: FdFlags,
) -> OpenSpec {
    let create = rights::is_set(oflags, __WASI_OFLAGS_CREAT);
    let exclusive = rights::is_set(oflags, __WASI_OFLAGS_EXCL);
    let truncate = rights::is_set(oflags, __WASI_OFLAGS_TRUNC);
    let append = rights::is_set(fdflags, __WASI_FDFLAGS_APPEND);
    let rights = rights::access_bits(append, read, write);
    OpenSpec {
        read: false,
        write: create || truncate,
        create: create && !exclusive,
        create_new: create && exclusive,
        truncate: truncate && !create,
        access_mode: Some(
            AccessMode {
                bits: if truncate {
                    rights | GENERIC_WRITE
                } else {
                    rights
                },
            },
        ),
        custom_flags: Some(
            Flags { bits: rights::flag_bits(rights::wants_sync(fdflags)) },
        ),
    }
}

/// Why a path that names this, or fails to, is not opened: none if it is.
///
/// A link is not followed, a file is no directory, and a path that cannot be
/// inspected is opened only if nothing is there.
pub open spec fn open_refusal(oflags: OFlags, found: Result<FileType, OsError>) -> Option<Error> {
    match found {
        Ok(FileType::Symlink) => Some(Error::Wasi(WasiError::ELOOP)),
        Ok(FileType::RegularFile) => if rights::is_set(oflags, __WASI_OFLAGS_DIRECTORY) {
            Some(Error::Wasi(WasiError::ENOTDIR))
        } else {
            None
        },
        Ok(_) => None,
        Err(error) => match error.spec_win_error() {
            Some(win) => if win.code == ERROR_FILE_NOT_FOUND {
                None
            } else {
                Some(Error::Winx(win))
            },
            None => Some(Error::Wasi(WasiError::EIO)),
        },
    }
}

fn open_options_for(read: bool, write: bool, oflags: OFlags, fdflags: FdFlags) -> (options:
    OpenSpec)
    ensures
        options == open_options(read, write, oflags, fdflags),
{
    let mut access_mode = file_access_mode_from_fdflags(fdflags, read, write);
    if oflags & __WASI_OFLAGS_TRUNC != 0 {
        access_mode.insert(GENERIC_WRITE);
    }
    let mut options = OpenSpec {
        read: false,
        write: false,
        create: false,
        create_new: false,
        truncate: false,
        access_mode: Some(access_mode),
        custom_flags: Some(file_flags_from_fdflags(fdflags)),
    };
    match creation_disposition_from_oflags(oflags) {
        CreationDisposition::CreateAlways => {
            options.create = true;
            options.write = true;
        },
        CreationDisposition::CreateNew => {
            options.create_new = true;
            options.write = true;
        },
        CreationDisposition::TruncateExisting => {
            options.truncate = true;
            options.write = true;
        },
        CreationDisposition::OpenExisting => {},
    }
    options
}

fn refusal(oflags: OFlags, found: Result<FileType, OsError>) -> (error: Option<Error>)
    ensures
        error == open_refusal(oflags, found),
{
    match found {
        Ok(FileType::Symlink) => Some(Error::Wasi(WasiError::ELOOP)),
        Ok(FileType::RegularFile) => {
            if oflags & __WASI_OFLAGS_DIRECTORY != 0 {
                Some(Error::Wasi(WasiError::ENOTDIR))
            } else {
                None
            }
        },
        Ok(_) => None,
        Err(error) => match error.win_error() {
            Some(win) => {
                if win.code != ERROR_FILE_NOT_FOUND {
                    Some(Error::Winx(win))
                } else {
                    // Nothing is there: the attempt to open it decides.
                    None
                }
            },
            None => Some(Error::Wasi(WasiError::EIO)),
        },
    }
}

impl Hostcall for PathOpen {
    type Output = Handle;

    open spec fn asks(self) -> Request<Seq<char>> {
        match self.stage {
            OpenStage::Locate => self.resolved.spec_concatenate(Slot::Target),
            OpenStage::Inspect => Request::SymlinkMetadata(Slot::Target),
            OpenStage::Open => Request::Open {
                at: Slot::Target,
                options: open_options(self.read, self.write, self.oflags, self.fdflags),
            },
        }
    }

    open spec fn after(self, reply: Reply) -> Outcome<Self, Handle> {
        match (self.stage, reply) {
            (OpenStage::Locate, Reply::Located(Ok(()))) => Outcome::Continue(
                PathOpen { stage: OpenStage::Inspect, ..self },
            ),
            (OpenStage::Locate, Reply::Located(Err(error))) => Outcome::Done(Err(error)),
            (OpenStage::Inspect, Reply::Type(found)) => match open_refusal(self.oflags, found) {
                Some(error) => Outcome::Done(Err(error)),
                None => Outcome::Continue(PathOpen { stage: OpenStage::Open, ..self }),
            },
            (OpenStage::Open, Reply::Opened(Ok(file))) => Outcome::Done(Ok(file)),
            (OpenStage::Open, Reply::Opened(Err(error))) => Outcome::Done(Err(Error::Io(error))),
            _ => Outcome::Continue(self),
        }
    }

    proof fn other_replies_change_nothing(self, reply: Reply) {
    }

    fn request(&self) -> Request<String> {
        match self.stage {
            OpenStage::Locate => self.resolved.concatenate(Slot::Target),
            OpenStage::Inspect => Request::SymlinkMetadata(Slot::Target),
            OpenStage::Open => Request::Open {
                at: Slot::Target,
                options: open_options_for(self.read, self.write, self.oflags, self.fdflags),
            },
        }
    }

    fn resume(self, reply: Reply) -> Outcome<Self, Handle> {
        match (self.stage, reply) {
            (OpenStage::Locate, Reply::Located(Ok(()))) => Outcome::Continue(
                PathOpen { stage: OpenStage::Inspect, ..self },
            ),
            (OpenStage::Locate, Reply::Located(Err(error))) => Outcome::Done(Err(error)),
            (OpenStage::Inspect, Reply::Type(found)) => match refusal(self.oflags, found) {
                Some(error) => Outcome::Done(Err(error)),
                None => Outcome::Continue(PathOpen { stage: OpenStage::Open, ..self }),
            },
            (OpenStage::Open, Reply::Opened(Ok(file))) => Outcome::Done(Ok(file)),
            (OpenStage::Open, Reply::Opened(Err(error))) => Outcome::Done(Err(Error::Io(error))),
            _ => Outcome::Continue(self),
        }
    }
}

/// How `path_open` begins. Windows cannot append to a file that it opens for
/// truncation: truncation takes `GENERIC_WRITE`, which would grant again the
/// right that append-only handles are without.
pub open spec fn spec_path_open(
    resolved: PathGet,
    read: bool,
    write: bool,
    oflags: OFlags,
    fdflags: FdFlags,
) -> Outcome<PathOpen, Handle> {
    if rights::is_set(oflags, __WASI_OFLAGS_TRUNC) && rights::is_set(
        fdflags,
        __WASI_FDFLAGS_APPEND,
    ) {
        Outcome::Done(Err(Error::Wasi(WasiError::ENOTSUP)))
    } else {
        Outcome::Continue(
            PathOpen { resolved, read, write, oflags, fdflags, stage: OpenStage::Locate },
        )
    }
}

/// Opens a path. On every host this ends after at most three replies, with
/// [`path_open_result`].
pub fn path_open(
    resolved: PathGet,
    read: bool,
    write: bool,
    oflags: OFlags,
    fdflags: FdFlags,
) -> (outcome: Outcome<PathOpen, Handle>)
    ensures
        outcome == spec_path_open(resolved, read, write, oflags, fdflags),
        forall|host: Host, n: nat| #[trigger]
            host::run_from(outcome, host, n, 3) == Some(
                path_open_result(resolved, read, write, oflags, fdflags, host, n),
            ),
{
    proof {
        assert forall|host: Host, n: nat| #[trigger]
            host::run_from(
                spec_path_open(resolved, read, write, oflags, fdflags),
                host,
                n,
                3,
            ) == Some(
                path_open_result(resolved, read, write, oflags, fdflags, host, n),
            ) by {
            path_open_ends(resolved, read, write, oflags, fdflags, host, n);
        }
    }
    if oflags & __WASI_OFLAGS_TRUNC != 0 && fdflags & __WASI_FDFLAGS_APPEND != 0 {
        return Outcome::Done(Err(Error::Wasi(WasiError::ENOTSUP)));
    }
    Outcome::Continue(
        PathOpen { resolved, read, write, oflags, fdflags, stage: OpenStage::Locate },
    )
}

/// What `path_open` returns on a host.
pub open spec fn path_open_result(
    resolved: PathGet,
    read: bool,
    write: bool,
    oflags: OFlags,
    fdflags: FdFlags,
    host: Host,
    n: nat,
) -> Result<Handle, Error> {
    let located = (host.concatenate)(n, resolved.dirfd, resolved.path@, Slot::Target);
    let refused = open_refusal(oflags, (host.type_at)(n + 1, Slot::Target));
    let opened = (host.open_file)(
        n + 2,
        Slot::Target,
        open_options(read, write, oflags, fdflags),
    );
    if rights::is_set(oflags, __WASI_OFLAGS_TRUNC) && rights::is_set(
        fdflags,
        __WASI_FDFLAGS_APPEND,
    ) {
        Err(Error::Wasi(WasiError::ENOTSUP))
    } else if located is Err {
        Err(located->Err_0)
    } else if refused is Some {
        Err(refused->Some_0)
    } else if opened is Err {
        Err(Error::Io(opened->Err_0))
    } else {
        Ok(opened->Ok_0)
    }
}

/// On every host `path_open` ends after at most three replies, with its result.
pub proof fn path_open_ends(
    resolved: PathGet,
    read: bool,
    write: bool,
    oflags: OFlags,
    fdflags: FdFlags,
    host: Host,
    n: nat,
)
    ensures
        host::run_from(spec_path_open(resolved, read, write, oflags, fdflags), host, n, 3) == Some(
            path_open_result(resolved, read, write, oflags, fdflags, host, n),
        ),
{
    reveal_with_fuel(host::run, 4);
}

/// `path_open` opens a file, and creates or truncates one, only where nothing
/// speaks against it: a refused call makes no request to open. What it asks for
/// then is exactly the open that its flags stand for.
pub proof fn a_refused_open_opens_nothing(
    resolved: PathGet,
    read: bool,
    write: bool,
    oflags: OFlags,
    fdflags: FdFlags,
    host: Host,
    n: nat,
)
    ensures
        ({
            let made = host::requests_from(
                spec_path_open(resolved, read, write, oflags, fdflags),
                host,
                n,
                3,
            );
            let goes_on = {
                &&& !(rights::is_set(oflags, __WASI_OFLAGS_TRUNC) && rights::is_set(
                    fdflags,
                    __WASI_FDFLAGS_APPEND,
                ))
                &&& (host.concatenate)(n, resolved.dirfd, resolved.path@, Slot::Target) is Ok
                &&& open_refusal(oflags, (host.type_at)(n + 1, Slot::Target)) is None
            };
            &&& goes_on ==> made == seq![
                resolved.spec_concatenate(Slot::Target),
                Request::SymlinkMetadata(Slot::Target),
                Request::Open {
                    at: Slot::Target,
                    options: open_options(read, write, oflags, fdflags),
                },
            ]
            &&& !goes_on ==> forall|i: int| 0 <= i < made.len() ==> !(#[trigger] made[i] is Open)
        }),
{
    reveal_with_fuel(host::requests, 4);
}

/// Where a file is opened for appending, and not truncated, the handle can add to
/// the file but cannot write over what is there.
pub proof fn append_never_overwrites(read: bool, write: bool, oflags: OFlags, fdflags: FdFlags)
    requires
        rights::is_set(fdflags, __WASI_FDFLAGS_APPEND),
        !rights::is_set(oflags, __WASI_OFLAGS_TRUNC),
    ensures
        ({
            let mode = open_options(read, write, oflags, fdflags).access_mode->Some_0;
            &&& mode.has(FILE_APPEND_DATA)
            &&& !mode.has(FILE_WRITE_DATA)
            &&& !mode.has(GENERIC_WRITE)
        }),
{
    rights::data_rights_are_those_asked_for(true, read, write);
}

/// Truncation is asked for with `GENERIC_WRITE`, and nothing else is.
pub proof fn only_truncation_takes_generic_write(
    read: bool,
    write: bool,
    oflags: OFlags,
    fdflags: FdFlags,
)
    ensures
        open_options(read, write, oflags, fdflags).access_mode->Some_0.has(GENERIC_WRITE)
            <==> rights::is_set(oflags, __WASI_OFLAGS_TRUNC),
{
    let append = rights::is_set(fdflags, __WASI_FDFLAGS_APPEND);
    rights::data_rights_are_those_asked_for(append, read, write);
    let bits = rights::access_bits(append, read, write);
    assert((bits | GENERIC_WRITE) & GENERIC_WRITE == GENERIC_WRITE) by (bit_vector);
}

/// `path_open` truncates no file that it is to append to: it says `ENOTSUP` and asks for
/// nothing. Otherwise the path is located first; if it cannot be, that failure is the
/// result, and if it can, the next thing asked for is what it names.
pub proof fn a_path_is_looked_at_before_it_is_opened(
    resolved: PathGet,
    read: bool,
    write: bool,
    oflags: OFlags,
    fdflags: FdFlags,
    host: Host,
    n: nat,
)
    ensures
        ({
            let call = spec_path_open(resolved, read, write, oflags, fdflags);
            let made = host::requests_from(call, host, n, 3);
            let result = host::run_from(call, host, n, 3);
            if oflags & __WASI_OFLAGS_TRUNC != 0 && fdflags & __WASI_FDFLAGS_APPEND != 0 {
                &&& made.len() == 0
                &&& result == Some(Err::<Handle, Error>(Error::Wasi(WasiError::ENOTSUP)))
            } else {
                &&& made[0] == Request::Concatenate {
                    dirfd: resolved.dirfd,
                    path: resolved.path@,
                    into: Slot::Target,
                }
                &&& match (host.concatenate)(n, resolved.dirfd, resolved.path@, Slot::Target) {
                    Err(error) => {
                        &&& made.len() == 1
                        &&& result == Some(Err::<Handle, Error>(error))
                    },
                    Ok(()) => made[1] == Request::<Seq<char>>::SymlinkMetadata(Slot::Target),
                }
            }
        }),
{
    reveal_with_fuel(host::run, 4);
    reveal_with_fuel(host::requests, 4);
}

/// Of what a path can be found to name, two things only are not opened: a link, which
/// gets `ELOOP`, and a regular file where a directory is asked for, which gets
/// `ENOTDIR`. Everything else is opened, whatever the other flags are, and the result is
/// what comes of that.
pub proof fn what_is_there_is_opened_but_for_links_and_files_as_directories(
    resolved: PathGet,
    read: bool,
    write: bool,
    oflags: OFlags,
    fdflags: FdFlags,
    host: Host,
    n: nat,
    found: FileType,
)
    requires
        oflags & __WASI_OFLAGS_TRUNC == 0 || fdflags & __WASI_FDFLAGS_APPEND == 0,
        (host.concatenate)(n, resolved.dirfd, resolved.path@, Slot::Target) is Ok,
        (host.type_at)(n + 1, Slot::Target) == Ok::<FileType, OsError>(found),
    ensures
        ({
            let call = spec_path_open(resolved, read, write, oflags, fdflags);
            let made = host::requests_from(call, host, n, 3);
            let result = host::run_from(call, host, n, 3);
            let file_as_directory = found is RegularFile && oflags & __WASI_OFLAGS_DIRECTORY != 0;
            &&& found is Symlink ==> {
                &&& made.len() == 2
                &&& result == Some(Err::<Handle, Error>(Error::Wasi(WasiError::ELOOP)))
            }
            &&& file_as_directory ==> {
                &&& made.len() == 2
                &&& result == Some(Err::<Handle, Error>(Error::Wasi(WasiError::ENOTDIR)))
            }
            &&& !(found is Symlink) && !file_as_directory ==> {
                &&& made.len() == 3
                &&& made[2] is Open
                &&& made[2]->Open_at == Slot::Target
                &&& match (host.open_file)(n + 2, Slot::Target, made[2]->Open_options) {
                    Ok(file) => result == Some(Ok::<Handle, Error>(file)),
                    Err(error) => result == Some(Err::<Handle, Error>(Error::Io(error))),
                }
            }
        }),
{
    reveal_with_fuel(host::run, 4);
    reveal_with_fuel(host::requests, 4);
}

/// A path that cannot be looked at is opened all the same if the reason is that nothing is
/// there, and the result is what comes of that. For every other reason it is not opened:
/// the result is the operating system's error, or `EIO` if there is none.
pub proof fn what_is_not_there_is_opened_too(
    resolved: PathGet,
    read: bool,
    write: bool,
    oflags: OFlags,
    fdflags: FdFlags,
    host: Host,
    n: nat,
    error: OsError,
)
    requires
        oflags & __WASI_OFLAGS_TRUNC == 0 || fdflags & __WASI_FDFLAGS_APPEND == 0,
        (host.concatenate)(n, resolved.dirfd, resolved.path@, Slot::Target) is Ok,
        (host.type_at)(n + 1, Slot::Target) == Err::<FileType, OsError>(error),
    ensures
        ({
            let call = spec_path_open(resolved, read, write, oflags, fdflags);
            let made = host::requests_from(call, host, n, 3);
            let result = host::run_from(call, host, n, 3);
            match error.raw_os_error {
                None => {
                    &&& made.len() == 2
                    &&& result == Some(Err::<Handle, Error>(Error::Wasi(WasiError::EIO)))
                },
                Some(2) => {
                    &&& made.len() == 3
                    &&& made[2] is Open
                    &&& made[2]->Open_at == Slot::Target
                    &&& match (host.open_file)(n + 2, Slot::Target, made[2]->Open_options) {
                        Ok(file) => result == Some(Ok::<Handle, Error>(file)),
                        Err(error) => result == Some(Err::<Handle, Error>(Error::Io(error))),
                    }
                },
                Some(number) => {
                    &&& made.len() == 2
                    &&& result == Some(
                        Err::<Handle, Error>(
                            Error::Winx(WinError::spec_from_u32(number as u32)),
                        ),
                    )
                },
            }
        }),
{
    reveal_with_fuel(host::run, 4);
    reveal_with_fuel(host::requests, 4);
    crate::error::a_failure_keeps_its_number_if_it_has_a_name(error);
}

/// Every open that `path_open` asks for is the one that its flags stand for. `CREAT`
/// creates, with `EXCL` only what is not there yet. `TRUNC` truncates, but not beside
/// `CREAT`. The rights are those to read where `read` is set, to write where `write` is
/// set and to append where `APPEND` is; `TRUNC` adds `GENERIC_WRITE`. The file writes
/// through where `DSYNC`, `RSYNC` or `SYNC` is set.
pub proof fn an_open_is_the_one_that_the_flags_stand_for(
    resolved: PathGet,
    read: bool,
    write: bool,
    oflags: OFlags,
    fdflags: FdFlags,
    host: Host,
    n: nat,
    i: int,
)
    requires
        ({
            let call = spec_path_open(resolved, read, write, oflags, fdflags);
            let made = host::requests_from(call, host, n, 3);
            0 <= i < made.len() && made[i] is Open
        }),
    ensures
        ({
            let call = spec_path_open(resolved, read, write, oflags, fdflags);
            let options = host::requests_from(call, host, n, 3)[i]->Open_options;
            let creat = oflags & __WASI_OFLAGS_CREAT != 0;
            let excl = oflags & __WASI_OFLAGS_EXCL != 0;
            let trunc = oflags & __WASI_OFLAGS_TRUNC != 0;
            let append = fdflags & __WASI_FDFLAGS_APPEND != 0;
            let sync = fdflags & 0x2 != 0 || fdflags & 0x8 != 0 || fdflags & 0x10 != 0;
            let bits = options.access_mode->Some_0.bits;
            &&& i == 2
            &&& options.create <==> creat && !excl
            &&& options.create_new <==> creat && excl
            &&& options.truncate <==> trunc && !creat
            &&& options.write <==> creat || trunc
            &&& !options.read
            &&& options.access_mode is Some
            &&& bits & 0x1 != 0 <==> read
            &&& bits & 0x2 != 0 <==> write && !append
            &&& bits & 0x4 != 0 <==> write || append
            &&& bits & 0x8 != 0 <==> read
            &&& bits & 0x10 != 0 <==> write
            &&& bits & 0x80 != 0 <==> read
            &&& bits & 0x100 != 0 <==> write
            &&& bits & 0x2_0000 != 0
            &&& bits & 0x10_0000 != 0 <==> read || write
            &&& bits & 0x4000_0000 != 0 <==> trunc
            &&& bits & !0x4012_019f == 0
            &&& options.custom_flags == Some(
                Flags {
                    bits: if sync {
                        0x8200_0000
                    } else {
                        0x0200_0000
                    },
                },
            )
        }),
{
    reveal_with_fuel(host::requests, 4);
    let append = fdflags & __WASI_FDFLAGS_APPEND != 0;
    let bits = rights::access_bits(append, read, write);
    rights::every_right_has_its_reason(append, read, write);
    rights::every_open_flag_has_its_reason(fdflags);
    assert({
        let more = bits | 0x4000_0000;
        &&& more & 0x1 == bits & 0x1
        &&& more & 0x2 == bits & 0x2
        &&& more & 0x4 == bits & 0x4
        &&& more & 0x8 == bits & 0x8
        &&& more & 0x10 == bits & 0x10
        &&& more & 0x80 == bits & 0x80
        &&& more & 0x100 == bits & 0x100
        &&& more & 0x2_0000 == bits & 0x2_0000
        &&& more & 0x10_0000 == bits & 0x10_0000
        &&& more & 0x4000_0000 != 0
        &&& bits & !0x12_019f == 0 ==> bits & 0x4000_0000 == 0
        &&& bits & !0x12_019f == 0 ==> bits & !0x4012_019f == 0
        &&& bits & !0x12_019f == 0 ==> more & !0x4012_019f == 0
    }) by (bit_vector);
}

/// Every request of `path_open` finds its path and its handle ready.
pub proof fn path_open_finds_ready(call: PathOpen, host: Host, n: nat)
    requires
        call.stage == OpenStage::Locate,
    ensures
        host::finds_ready(call, host, n, 3, host::ready_with(set![call.resolved.dirfd])),
{
    reveal_with_fuel(host::finds_ready, 4);
}

} // verus!
