//! The WASI flags of an open file.
use crate::error::Error;
use crate::host::{self, Handle, Host, Hostcall, Outcome, Reply, Request};
use crate::rights::{
    self, file_access_mode_from_fdflags, file_flags_from_fdflags, AccessMode, FileModeInformation,
    Flags, FILE_APPEND_DATA, FILE_FLAG_WRITE_THROUGH, FILE_READ_DATA, FILE_WRITE_DATA,
    FILE_WRITE_THROUGH,
};
use crate::wasi::{
    FdFlags, __WASI_FDFLAGS_APPEND, __WASI_FDFLAGS_DSYNC, __WASI_FDFLAGS_NONBLOCK,
    __WASI_FDFLAGS_RSYNC, __WASI_FDFLAGS_SYNC,
};
use vstd::prelude::*;

verus! {

/// The handle may append to the file but not write over what is there.
pub open spec fn is_append_only(access: AccessMode) -> bool {
    access.has(FILE_APPEND_DATA) && !access.has(FILE_WRITE_DATA)
}

/// The handle may change what is in the file.
pub open spec fn is_writable(access: AccessMode) -> bool {
    access.has(FILE_WRITE_DATA) || access.has(FILE_APPEND_DATA)
}

/// The WASI flags of a file that is open with these rights and in this mode.
/// `SYNC` is the only kind of synchronous writes that Windows knows, and files
/// know no `NONBLOCK`.
pub open spec fn spec_fdflags(access: AccessMode, mode: FileModeInformation) -> FdFlags {
    (if is_append_only(access) {
        __WASI_FDFLAGS_APPEND
    } else {
        0u16
    }) | (if mode.has(FILE_WRITE_THROUGH) {
        __WASI_FDFLAGS_SYNC
    } else {
        0u16
    })
}

/// The WASI flags of a file that is open with these rights and in this mode.
pub fn fdflags_from_access(access: AccessMode, mode: FileModeInformation) -> (fdflags: FdFlags)
    ensures
        fdflags == spec_fdflags(access, mode),
{
    let mut fdflags: u16 = 0;
    proof {
        assert(forall|x: u16| #[trigger] (x | 0u16) == x) by (bit_vector);
        assert(forall|x: u16| #[trigger] (0u16 | x) == x) by (bit_vector);
    }
    if access.contains(FILE_APPEND_DATA) && !access.contains(FILE_WRITE_DATA) {
        fdflags = fdflags | __WASI_FDFLAGS_APPEND;
    }
    if mode.contains(FILE_WRITE_THROUGH) {
        fdflags = fdflags | __WASI_FDFLAGS_SYNC;
    }
    fdflags
}

/// What `fd_fdstat_get` waits for.
#[derive(Clone, Copy, Debug, PartialEq, Eq)]
pub enum FdstatGetStage {
    /// The rights of the handle.
    Access,
    /// The mode of the file, whose rights are these.
    Mode(AccessMode),
}

/// `fd_fdstat_get` under way.
#[derive(Debug, PartialEq, Eq)]
pub struct FdFdstatGet {
    pub file: Handle,
    pub stage: FdstatGetStage,
}

impl Hostcall for FdFdstatGet {
    type Output = FdFlags;

    open spec fn asks(self) -> Request<Seq<char>> {
        match self.stage {
            FdstatGetStage::Access => Request::QueryAccess(self.file),
            FdstatGetStage::Mode(_) => Request::QueryMode(self.file),
        }
    }

    open spec fn after(self, reply: Reply) -> Outcome<Self, FdFlags> {
        match (self.stage, reply) {
            (_, Reply::Bits(Err(error))) => Outcome::Done(Err(error)),
            (FdstatGetStage::Access, Reply::Bits(Ok(bits))) => Outcome::Continue(
                FdFdstatGet { stage: FdstatGetStage::Mode(AccessMode { bits }), ..self },
            ),
            (FdstatGetStage::Mode(access), Reply::Bits(Ok(bits))) => Outcome::Done(
                Ok(spec_fdflags(access, FileModeInformation { bits })),
            ),
            _ => Outcome::Continue(self),
        }
    }

    proof fn other_replies_change_nothing(self, reply: Reply) {
    }

    fn request(&self) -> Request<String> {
        match self.stage {
            FdstatGetStage::Access => Request::QueryAccess(self.file),
            FdstatGetStage::Mode(_) => Request::QueryMode(self.file),
        }
    }

    fn resume(self, reply: Reply) -> Outcome<Self, FdFlags> {
        match (self.stage, reply) {
            (_, Reply::Bits(Err(error))) => Outcome::Done(Err(error)),
            (FdstatGetStage::Access, Reply::Bits(Ok(bits))) => Outcome::Continue(
                FdFdstatGet { stage: FdstatGetStage::Mode(AccessMode { bits }), ..self },
            ),
            (FdstatGetStage::Mode(access), Reply::Bits(Ok(bits))) => Outcome::Done(
                Ok(fdflags_from_access(access, FileModeInformation { bits })),
            ),
            _ => Outcome::Continue(self),
        }
    }
}

/// Reads the WASI flags of an open file. On every host this ends after at most two
/// replies, with [`fd_fdstat_get_result`].
pub fn fd_fdstat_get(file: Handle) -> (call: FdFdstatGet)
    ensures
        call == (FdFdstatGet { file, stage: FdstatGetStage::Access }),
        forall|host: Host, n: nat| #[trigger]
            host::run(call, host, n, 2) == Some(fd_fdstat_get_result(file, host, n)),
{
    let call = FdFdstatGet { file, stage: FdstatGetStage::Access };
    proof {
        assert forall|host: Host, n: nat| #[trigger]
            host::run(call, host, n, 2) == Some(fd_fdstat_get_result(file, host, n)) by {
            fd_fdstat_get_ends(call, host, n);
        }
    }
    call
}

/// What `fd_fdstat_get` returns on a host.
pub open spec fn fd_fdstat_get_result(file: Handle, host: Host, n: nat) -> Result<
    FdFlags,
    Error,
> {
    let access = (host.access)(n, file);
    let mode = (host.mode)(n + 1, file);
    if access is Err {
        Err(access->Err_0)
    } else if mode is Err {
        Err(mode->Err_0)
    } else {
        Ok(
            spec_fdflags(
                AccessMode { bits: access->Ok_0 },
                FileModeInformation { bits: mode->Ok_0 },
            ),
        )
    }
}

/// On every host `fd_fdstat_get` ends after at most two replies, with its result.
pub proof fn fd_fdstat_get_ends(call: FdFdstatGet, host: Host, n: nat)
    requires
        call.stage == FdstatGetStage::Access,
    ensures
        host::run(call, host, n, 2) == Some(fd_fdstat_get_result(call.file, host, n)),
{
    reveal_with_fuel(host::run, 3);
}

/// The rights of an open file once its WASI flags are set: it reads where it did
/// and writes where it wrote or appended.
pub open spec fn spec_new_access(access: AccessMode, fdflags: FdFlags) -> AccessMode {
    AccessMode {
        bits: rights::access_bits(
            rights::is_set(fdflags, __WASI_FDFLAGS_APPEND),
            access.has(FILE_READ_DATA),
            is_writable(access),
        ),
    }
}

/// The rights of an open file once its WASI flags are set.
pub fn new_access(access: AccessMode, fdflags: FdFlags) -> (changed: AccessMode)
    ensures
        changed == spec_new_access(access, fdflags),
{
    file_access_mode_from_fdflags(
        fdflags,
        access.contains(FILE_READ_DATA),
        access.contains(FILE_WRITE_DATA) || access.contains(FILE_APPEND_DATA),
    )
}

/// What `fd_fdstat_set_flags` waits for.
#[derive(Clone, Copy, Debug, PartialEq, Eq)]
pub enum SetFlagsStage {
    /// The rights of the handle.
    Access,
    /// The file, opened once more; the rights of the old handle are these.
    Reopen(AccessMode),
}

/// `fd_fdstat_set_flags` under way.
#[derive(Debug, PartialEq, Eq)]
pub struct FdFdstatSetFlags {
    pub file: Handle,
    pub fdflags: FdFlags,
    pub stage: SetFlagsStage,
}

impl Hostcall for FdFdstatSetFlags {
    type Output = Option<Handle>;

    open spec fn asks(self) -> Request<Seq<char>> {
        match self.stage {
            SetFlagsStage::Access => Request::QueryAccess(self.file),
            SetFlagsStage::Reopen(access) => Request::Reopen {
                file: self.file,
                access_mode: spec_new_access(access, self.fdflags),
                flags: Flags { bits: rights::flag_bits(rights::wants_sync(self.fdflags)) },
            },
        }
    }

    open spec fn after(self, reply: Reply) -> Outcome<Self, Option<Handle>> {
        match (self.stage, reply) {
            (SetFlagsStage::Access, Reply::Bits(Ok(bits))) => Outcome::Continue(
                FdFdstatSetFlags { stage: SetFlagsStage::Reopen(AccessMode { bits }), ..self },
            ),
            (SetFlagsStage::Access, Reply::Bits(Err(error))) => Outcome::Done(Err(error)),
            (SetFlagsStage::Reopen(_), Reply::Reopened(Ok(file))) => Outcome::Done(Ok(Some(file))),
            (SetFlagsStage::Reopen(_), Reply::Reopened(Err(error))) => Outcome::Done(Err(error)),
            _ => Outcome::Continue(self),
        }
    }

    proof fn other_replies_change_nothing(self, reply: Reply) {
    }

    fn request(&self) -> Request<String> {
        match self.stage {
            SetFlagsStage::Access => Request::QueryAccess(self.file),
            SetFlagsStage::Reopen(access) => Request::Reopen {
                file: self.file,
                access_mode: new_access(access, self.fdflags),
                flags: file_flags_from_fdflags(self.fdflags),
            },
        }
    }

    fn resume(self, reply: Reply) -> Outcome<Self, Option<Handle>> {
        match (self.stage, reply) {
            (SetFlagsStage::Access, Reply::Bits(Ok(bits))) => Outcome::Continue(
                FdFdstatSetFlags { stage: SetFlagsStage::Reopen(AccessMode { bits }), ..self },
            ),
            (SetFlagsStage::Access, Reply::Bits(Err(error))) => Outcome::Done(Err(error)),
            (SetFlagsStage::Reopen(_), Reply::Reopened(Ok(file))) => Outcome::Done(Ok(Some(file))),
            (SetFlagsStage::Reopen(_), Reply::Reopened(Err(error))) => Outcome::Done(Err(error)),
            _ => Outcome::Continue(self),
        }
    }
}

/// Sets the WASI flags of an open file. Windows cannot change those of a handle,
/// so the file is opened once more and the new handle takes the old one's place. On
/// every host this ends after at most two replies, with
/// [`fd_fdstat_set_flags_result`].
pub fn fd_fdstat_set_flags(fd: Handle, fdflags: FdFlags) -> (call: FdFdstatSetFlags)
    ensures
        call == (FdFdstatSetFlags { file: fd, fdflags, stage: SetFlagsStage::Access }),
        forall|host: Host, n: nat| #[trigger]
            host::run(call, host, n, 2) == Some(fd_fdstat_set_flags_result(fd, fdflags, host, n)),
{
    let call = FdFdstatSetFlags { file: fd, fdflags, stage: SetFlagsStage::Access };
    proof {
        assert forall|host: Host, n: nat| #[trigger]
            host::run(call, host, n, 2) == Some(
                fd_fdstat_set_flags_result(fd, fdflags, host, n),
            ) by {
            fd_fdstat_set_flags_ends(call, host, n);
        }
    }
    call
}

/// What `fd_fdstat_set_flags` returns on a host.
pub open spec fn fd_fdstat_set_flags_result(
    file: Handle,
    fdflags: FdFlags,
    host: Host,
    n: nat,
) -> Result<Option<Handle>, Error> {
    let access = (host.access)(n, file);
    let reopened = (host.reopen)(
        n + 1,
        file,
        spec_new_access(AccessMode { bits: access->Ok_0 }, fdflags),
        Flags { bits: rights::flag_bits(rights::wants_sync(fdflags)) },
    );
    if access is Err {
        Err(access->Err_0)
    } else if reopened is Err {
        Err(reopened->Err_0)
    } else {
        Ok(Some(reopened->Ok_0))
    }
}

/// On every host `fd_fdstat_set_flags` ends after at most two replies, with its
/// result.
pub proof fn fd_fdstat_set_flags_ends(call: FdFdstatSetFlags, host: Host, n: nat)
    requires
        call.stage == SetFlagsStage::Access,
    ensures
        host::run(call, host, n, 2) == Some(
            fd_fdstat_set_flags_result(call.file, call.fdflags, host, n),
        ),
{
    reveal_with_fuel(host::run, 3);
}

/// The flags that are reported are `APPEND`, for a handle that can do no more
/// than append, and `SYNC`, for a file that writes through; never another.
pub proof fn reported_flags_are_append_and_sync(access: AccessMode, mode: FileModeInformation)
    ensures
        ({
            let reported = spec_fdflags(access, mode);
            &&& rights::is_set(reported, __WASI_FDFLAGS_APPEND) <==> is_append_only(access)
            &&& rights::is_set(reported, __WASI_FDFLAGS_SYNC) <==> mode.has(FILE_WRITE_THROUGH)
            &&& !rights::is_set(reported, __WASI_FDFLAGS_DSYNC)
            &&& !rights::is_set(reported, __WASI_FDFLAGS_RSYNC)
            &&& !rights::is_set(reported, __WASI_FDFLAGS_NONBLOCK)
            &&& reported & !(__WASI_FDFLAGS_APPEND | __WASI_FDFLAGS_SYNC) == 0
        }),
{
    let append = is_append_only(access);
    let sync = mode.has(FILE_WRITE_THROUGH);
    let reported = spec_fdflags(access, mode);
    assert((rights::is_set(reported, __WASI_FDFLAGS_APPEND) <==> append) && (rights::is_set(
        reported,
        __WASI_FDFLAGS_SYNC,
    ) <==> sync) && !rights::is_set(reported, __WASI_FDFLAGS_DSYNC) && !rights::is_set(
        reported,
        __WASI_FDFLAGS_RSYNC,
    ) && !rights::is_set(reported, __WASI_FDFLAGS_NONBLOCK) && reported & !(__WASI_FDFLAGS_APPEND
        | __WASI_FDFLAGS_SYNC) == 0) by (bit_vector)
        requires
            reported == (if append {
                __WASI_FDFLAGS_APPEND
            } else {
                0u16
            }) | (if sync {
                __WASI_FDFLAGS_SYNC
            } else {
                0u16
            }),
    ;
}

/// `APPEND` is read back as it was set: of a file with the rights that it is
/// opened with, `fd_fdstat_get` reports `APPEND` exactly where it was asked for.
pub proof fn append_is_read_back(
    fdflags: FdFlags,
    read: bool,
    write: bool,
    mode: FileModeInformation,
)
    ensures
        ({
            let append = rights::is_set(fdflags, __WASI_FDFLAGS_APPEND);
            let access = AccessMode { bits: rights::access_bits(append, read, write) };
            rights::is_set(spec_fdflags(access, mode), __WASI_FDFLAGS_APPEND) <==> append
        }),
{
    let append = rights::is_set(fdflags, __WASI_FDFLAGS_APPEND);
    rights::data_rights_are_those_asked_for(append, read, write);
    reported_flags_are_append_and_sync(
        AccessMode { bits: rights::access_bits(append, read, write) },
        mode,
    );
}

/// Synchronous writes are read back as `SYNC`, whichever flag asked for them: on
/// a system where a file is in the mode to write through exactly if it was opened
/// with the flag for it.
pub proof fn sync_is_read_back(fdflags: FdFlags, access: AccessMode, mode: FileModeInformation)
    requires
        mode.has(FILE_WRITE_THROUGH) <==> rights::has_all(
            rights::flag_bits(rights::wants_sync(fdflags)),
            FILE_FLAG_WRITE_THROUGH,
        ),
    ensures
        rights::is_set(spec_fdflags(access, mode), __WASI_FDFLAGS_SYNC) <==> rights::wants_sync(
            fdflags,
        ),
{
    rights::any_sync_flag_writes_through(fdflags);
    reported_flags_are_append_and_sync(access, mode);
}

/// Setting the flags of a file neither takes away the right to read or to change
/// it nor grants one, but for appending where `APPEND` is set; and what
/// `fd_fdstat_get` then reports of `APPEND` is what was set.
pub proof fn setting_flags_keeps_reading_and_writing(
    access: AccessMode,
    fdflags: FdFlags,
    mode: FileModeInformation,
)
    ensures
        ({
            let append = rights::is_set(fdflags, __WASI_FDFLAGS_APPEND);
            let changed = spec_new_access(access, fdflags);
            &&& changed.has(FILE_READ_DATA) <==> access.has(FILE_READ_DATA)
            &&& is_writable(changed) <==> is_writable(access) || append
            &&& changed.has(FILE_WRITE_DATA) <==> is_writable(access) && !append
            &&& rights::is_set(spec_fdflags(changed, mode), __WASI_FDFLAGS_APPEND) <==> append
        }),
{
    let append = rights::is_set(fdflags, __WASI_FDFLAGS_APPEND);
    rights::data_rights_are_those_asked_for(
        append,
        access.has(FILE_READ_DATA),
        is_writable(access),
    );
    reported_flags_are_append_and_sync(spec_new_access(access, fdflags), mode);
}

/// Only the flags that are set last count: on a file that could be written, the
/// rights after two settings are those after the second alone. In particular a
/// file made append-only can be made fully writable again.
pub proof fn the_last_flags_count(access: AccessMode, first: FdFlags, second: FdFlags)
    requires
        is_writable(access) || !rights::is_set(first, __WASI_FDFLAGS_APPEND),
    ensures
        spec_new_access(spec_new_access(access, first), second) == spec_new_access(access, second),
{
    rights::data_rights_are_those_asked_for(
        rights::is_set(first, __WASI_FDFLAGS_APPEND),
        access.has(FILE_READ_DATA),
        is_writable(access),
    );
}

/// `fd_fdstat_get` asks for the rights and then for the mode of the file. Of these it
/// reports two bits: that for `APPEND` if the handle may append but not write, that for
/// `SYNC` if the file writes through. No other bit is set, and if the host cannot tell
/// one of the two, that failure is the result.
pub proof fn flags_are_read_off_the_rights_and_the_mode(call: FdFdstatGet, host: Host, n: nat)
    requires
        call.stage == FdstatGetStage::Access,
    ensures
        ({
            let made = host::requests(call, host, n, 2);
            let result = host::run(call, host, n, 2);
            &&& made[0] == Request::<Seq<char>>::QueryAccess(call.file)
            &&& match (host.access)(n, call.file) {
                Err(error) => made.len() == 1 && result == Some(Err::<FdFlags, Error>(error)),
                Ok(access) => {
                    &&& made.len() == 2
                    &&& made[1] == Request::<Seq<char>>::QueryMode(call.file)
                    &&& match (host.mode)(n + 1, call.file) {
                        Err(error) => result == Some(Err::<FdFlags, Error>(error)),
                        Ok(mode) => {
                            let reported = result->Some_0->Ok_0;
                            &&& result is Some && result->Some_0 is Ok
                            &&& reported & 0x1 != 0 <==> access & 0x4 != 0 && access & 0x2 == 0
                            &&& reported & 0x10 != 0 <==> mode & 0x2 != 0
                            &&& reported & !0x11 == 0
                        },
                    }
                },
            }
        }),
{
    reveal_with_fuel(host::run, 3);
    reveal_with_fuel(host::requests, 3);
    if (host.access)(n, call.file) is Ok && (host.mode)(n + 1, call.file) is Ok {
        let access = (host.access)(n, call.file)->Ok_0;
        let mode = (host.mode)(n + 1, call.file)->Ok_0;
        reported_flags_are_append_and_sync(
            AccessMode { bits: access },
            FileModeInformation { bits: mode },
        );
        assert(!(0x1u16 | 0x10u16) == !0x11u16) by (bit_vector);
        assert(access & 0x4 == 0x4 <==> access & 0x4 != 0) by (bit_vector);
        assert(access & 0x2 == 0x2 <==> access & 0x2 != 0) by (bit_vector);
        assert(mode & 0x2 == 0x2 <==> mode & 0x2 != 0) by (bit_vector);
    }
}

/// `fd_fdstat_set_flags` asks for the rights of the file and then for the same file once
/// more, and its result is the new handle. That one may read if the old one may, and may
/// change the file if the old one may write or append: by appending alone if `APPEND` is
/// set. It writes through where `DSYNC`, `RSYNC` or `SYNC` is set. If the host fails,
/// that failure is the result.
pub proof fn the_file_is_opened_again_with_the_new_flags(
    call: FdFdstatSetFlags,
    host: Host,
    n: nat,
)
    requires
        call.stage == SetFlagsStage::Access,
    ensures
        ({
            let made = host::requests(call, host, n, 2);
            let result = host::run(call, host, n, 2);
            let fdflags = call.fdflags;
            let append = fdflags & __WASI_FDFLAGS_APPEND != 0;
            let sync = fdflags & 0x2 != 0 || fdflags & 0x8 != 0 || fdflags & 0x10 != 0;
            &&& made[0] == Request::<Seq<char>>::QueryAccess(call.file)
            &&& match (host.access)(n, call.file) {
                Err(error) => {
                    &&& made.len() == 1
                    &&& result == Some(Err::<Option<Handle>, Error>(error))
                },
                Ok(access) => {
                    let read = access & 0x1 != 0;
                    let write = access & 0x2 != 0 || access & 0x4 != 0;
                    let bits = made[1]->Reopen_access_mode.bits;
                    let flags = made[1]->Reopen_flags.bits;
                    &&& made.len() == 2
                    &&& made[1] is Reopen
                    &&& made[1]->Reopen_file == call.file
                    &&& bits & 0x1 != 0 <==> read
                    &&& bits & 0x2 != 0 <==> write && !append
                    &&& bits & 0x4 != 0 <==> write || append
                    &&& bits & 0x8 != 0 <==> read
                    &&& bits & 0x10 != 0 <==> write
                    &&& bits & 0x80 != 0 <==> read
                    &&& bits & 0x100 != 0 <==> write
                    &&& bits & 0x2_0000 != 0
                    &&& bits & 0x10_0000 != 0 <==> read || write
                    &&& bits & !0x12_019f == 0
                    &&& sync ==> flags == 0x8200_0000
                    &&& !sync ==> flags == 0x0200_0000
                    &&& match host.answer(n + 1, made[1]) {
                        Reply::Reopened(Ok(file)) => result == Some(
                            Ok::<Option<Handle>, Error>(Some(file)),
                        ),
                        Reply::Reopened(Err(error)) => result == Some(
                            Err::<Option<Handle>, Error>(error),
                        ),
                        _ => false,
                    }
                },
            }
        }),
{
    reveal_with_fuel(host::run, 3);
    reveal_with_fuel(host::requests, 3);
    if (host.access)(n, call.file) is Ok {
        let access = (host.access)(n, call.file)->Ok_0;
        rights::every_right_has_its_reason(
            call.fdflags & __WASI_FDFLAGS_APPEND != 0,
            access & 0x1 != 0,
            access & 0x2 != 0 || access & 0x4 != 0,
        );
        rights::every_open_flag_has_its_reason(call.fdflags);
        assert(access & 0x1 == 0x1 <==> access & 0x1 != 0) by (bit_vector);
        assert(access & 0x2 == 0x2 <==> access & 0x2 != 0) by (bit_vector);
        assert(access & 0x4 == 0x4 <==> access & 0x4 != 0) by (bit_vector);
    }
}

/// Every request of `fd_fdstat_get` finds its handle ready.
pub proof fn fd_fdstat_get_finds_ready(call: FdFdstatGet, host: Host, n: nat)
    requires
        call.stage == FdstatGetStage::Access,
    ensures
        host::finds_ready(call, host, n, 2, host::ready_with(set![call.file])),
{
    reveal_with_fuel(host::finds_ready, 3);
}

/// Every request of `fd_fdstat_set_flags` finds its handle ready.
pub proof fn fd_fdstat_set_flags_finds_ready(call: FdFdstatSetFlags, host: Host, n: nat)
    requires
        call.stage == SetFlagsStage::Access,
    ensures
        host::finds_ready(call, host, n, 2, host::ready_with(set![call.file])),
{
    reveal_with_fuel(host::finds_ready, 3);
}

} // verus!
