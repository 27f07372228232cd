//! Access rights and flags of Windows file handles, and how WASI flags turn
//! into them.
use crate::wasi::{
    FdFlags, OFlags, __WASI_FDFLAGS_APPEND, __WASI_FDFLAGS_DSYNC, __WASI_FDFLAGS_NONBLOCK,
    __WASI_FDFLAGS_RSYNC, __WASI_FDFLAGS_SYNC, __WASI_OFLAGS_CREAT, __WASI_OFLAGS_EXCL,
    __WASI_OFLAGS_TRUNC,
};
use vstd::prelude::*;

verus! {

pub const FILE_READ_DATA: u32 = 0x1;

pub const FILE_WRITE_DATA: u32 = 0x2;

pub const FILE_APPEND_DATA: u32 = 0x4;

pub const FILE_WRITE_ATTRIBUTES: u32 = 0x100;

pub const READ_CONTROL: u32 = 0x2_0000;

pub const GENERIC_WRITE: u32 = 0x4000_0000;

/// `READ_CONTROL`, `SYNCHRONIZE` and the rights to read data, attributes and
/// extended attributes.
pub const FILE_GENERIC_READ: u32 = 0x12_0089;

/// `READ_CONTROL`, `SYNCHRONIZE` and the rights to write and append data and to
/// write attributes and extended attributes.
pub const FILE_GENERIC_WRITE: u32 = 0x12_0116;

pub const FILE_FLAG_BACKUP_SEMANTICS: u32 = 0x0200_0000;

pub const FILE_FLAG_WRITE_THROUGH: u32 = 0x8000_0000;

/// In the mode of an open file: writes go through to the disk.
pub const FILE_WRITE_THROUGH: u32 = 0x2;

/// The access rights of a handle.
#[derive(Clone, Copy, Debug, PartialEq, Eq)]
pub struct AccessMode {
    pub bits: u32,
}

/// The flags that a file is opened with.
#[derive(Clone, Copy, Debug, PartialEq, Eq)]
pub struct Flags {
    pub bits: u32,
}

/// The mode that an open file is in.
#[derive(Clone, Copy, Debug, PartialEq, Eq)]
pub struct FileModeInformation {
    pub bits: u32,
}

/// Every bit of `other` is set in `bits`.
pub open spec fn has_all(bits: u32, other: u32) -> bool {
    bits & other == other
}

/// The flag is set in the WASI flag word.
pub open spec fn is_set(word: u16, flag: u16) -> bool {
    word & flag != 0
}

impl AccessMode {
    pub open spec fn has(self, rights: u32) -> bool {
        has_all(self.bits, rights)
    }

    pub fn contains(self, rights: u32) -> (all: bool)
        ensures
            all == self.has(rights),
    {
        self.bits & rights == rights
    }

    pub fn insert(&mut self, rights: u32)
        ensures
            final(self).bits == old(self).bits | rights,
    {
        self.bits = self.bits | rights;
    }

    pub fn remove(&mut self, rights: u32)
        ensures
            final(self).bits == old(self).bits & !rights,
    {
        self.bits = self.bits & !rights;
    }
}

impl FileModeInformation {
    pub open spec fn has(self, mode: u32) -> bool {
        has_all(self.bits, mode)
    }

    pub fn contains(self, mode: u32) -> (all: bool)
        ensures
            all == self.has(mode),
    {
        self.bits & mode == mode
    }
}

/// What happens to a file that exists, or does not, when it is opened.
#[derive(Clone, Copy, Debug, PartialEq, Eq)]
pub enum CreationDisposition {
    CreateNew,
    CreateAlways,
    OpenExisting,
    TruncateExisting,
}

/// Reads the creation disposition off the open flags: `CREAT` creates, and with
/// `EXCL` only what is not there yet; without `CREAT`, `TRUNC` truncates.
pub fn creation_disposition_from_oflags(oflags: OFlags) -> (disposition: CreationDisposition)
    ensures
        disposition is CreateNew <==> is_set(oflags, __WASI_OFLAGS_CREAT) && is_set(
            oflags,
            __WASI_OFLAGS_EXCL,
        ),
        disposition is CreateAlways <==> is_set(oflags, __WASI_OFLAGS_CREAT) && !is_set(
            oflags,
            __WASI_OFLAGS_EXCL,
        ),
        disposition is TruncateExisting <==> !is_set(oflags, __WASI_OFLAGS_CREAT) && is_set(
            oflags,
            __WASI_OFLAGS_TRUNC,
        ),
        disposition is OpenExisting <==> !is_set(oflags, __WASI_OFLAGS_CREAT) && !is_set(
            oflags,
            __WASI_OFLAGS_TRUNC,
        ),
{
    if oflags & __WASI_OFLAGS_CREAT != 0 {
        if oflags & __WASI_OFLAGS_EXCL != 0 {
            CreationDisposition::CreateNew
        } else {
            CreationDisposition::CreateAlways
        }
    } else if oflags & __WASI_OFLAGS_TRUNC != 0 {
        CreationDisposition::TruncateExisting
    } else {
        CreationDisposition::OpenExisting
    }
}

/// The rights of a handle that reads, writes or only appends.
///
/// The file-specific `FILE_GENERIC_READ` and `FILE_GENERIC_WRITE` stand here, not
/// `GENERIC_READ` and `GENERIC_WRITE`: from these single rights can be taken
/// away. Append-only means `FILE_APPEND_DATA` without `FILE_WRITE_DATA`.
pub open spec fn access_bits(append: bool, read: bool, write: bool) -> u32 {
    let granted = READ_CONTROL | (if read {
        FILE_GENERIC_READ
    } else {
        0u32
    }) | (if write {
        FILE_GENERIC_WRITE
    } else {
        0u32
    });
    if append {
        (granted | FILE_APPEND_DATA) & !FILE_WRITE_DATA
    } else {
        granted
    }
}

/// The access rights for a file that is opened with these WASI flags.
pub fn file_access_mode_from_fdflags(fdflags: FdFlags, read: bool, write: bool) -> (mode:
    AccessMode)
    ensures
        mode.bits == access_bits(is_set(fdflags, __WASI_FDFLAGS_APPEND), read, write),
{
    let mut mode = AccessMode { bits: READ_CONTROL };
    if read {
        mode.insert(FILE_GENERIC_READ);
    }
    if write {
        mode.insert(FILE_GENERIC_WRITE);
    }
    proof {
        assert(forall|x: u32| #[trigger] (x | 0u32) == x) by (bit_vector);
    }
    // Changes to the file pointer are ignored on a handle that may append but
    // not write, as POSIX has it for O_APPEND.
    if fdflags & __WASI_FDFLAGS_APPEND != 0 {
        mode.insert(FILE_APPEND_DATA);
        mode.remove(FILE_WRITE_DATA);
    }
    mode
}

/// One of the flags that ask for synchronous writes is set.
pub open spec fn wants_sync(fdflags: FdFlags) -> bool {
    ||| is_set(fdflags, __WASI_FDFLAGS_DSYNC)
    ||| is_set(fdflags, __WASI_FDFLAGS_RSYNC)
    ||| is_set(fdflags, __WASI_FDFLAGS_SYNC)
}

/// The open flags of a file that writes through, or not. Backup semantics let a
/// directory be opened as a file.
pub open spec fn flag_bits(sync: bool) -> u32 {
    if sync {
        FILE_FLAG_BACKUP_SEMANTICS | FILE_FLAG_WRITE_THROUGH
    } else {
        FILE_FLAG_BACKUP_SEMANTICS
    }
}

/// The open flags for a file that is opened with these WASI flags. Windows knows
/// only one kind of synchronous writes, so `DSYNC`, `RSYNC` and `SYNC` all ask
/// for it. `NONBLOCK` has no meaning for files.
pub fn file_flags_from_fdflags(fdflags: FdFlags) -> (flags: Flags)
    ensures
        flags.bits == flag_bits(wants_sync(fdflags)),
{
    let mut flags = Flags { bits: FILE_FLAG_BACKUP_SEMANTICS };
    if fdflags & __WASI_FDFLAGS_DSYNC != 0 || fdflags & __WASI_FDFLAGS_RSYNC != 0 || fdflags
        & __WASI_FDFLAGS_SYNC != 0 {
        flags.bits = flags.bits | FILE_FLAG_WRITE_THROUGH;
    }
    flags
}

/// A handle has some rights exactly if none of them is missing in its own; so it has two
/// sets of rights together exactly if it has each. The same holds of the mode of a file.
pub proof fn to_have_rights_is_to_have_each_of_them(
    access: AccessMode,
    mode: FileModeInformation,
    some: u32,
    others: u32,
)
    ensures
        access.has(some) <==> some & !access.bits == 0,
        access.has(some | others) <==> access.has(some) && access.has(others),
        mode.has(some) <==> some & !mode.bits == 0,
        mode.has(some | others) <==> mode.has(some) && mode.has(others),
{
    assert(forall|bits: u32|
        #![auto]
        {
            &&& bits & some == some <==> some & !bits == 0
            &&& bits & (some | others) == some | others <==> bits & some == some && bits & others
                == others
        }) by (bit_vector);
}

/// A handle gets exactly the data rights that were asked for: it reads where
/// reading was asked for, it writes in place where writing was asked for and not
/// append, and it appends where either was.
pub proof fn data_rights_are_those_asked_for(append: bool, read: bool, write: bool)
    ensures
        has_all(access_bits(append, read, write), FILE_READ_DATA) <==> read,
        has_all(access_bits(append, read, write), FILE_WRITE_DATA) <==> write && !append,
        has_all(access_bits(append, read, write), FILE_APPEND_DATA) <==> write || append,
        has_all(access_bits(append, read, write), FILE_WRITE_ATTRIBUTES) <==> write,
        has_all(access_bits(append, read, write), READ_CONTROL),
        !has_all(access_bits(append, read, write), GENERIC_WRITE),
{
    assert({
        &&& has_all(access_bits(append, read, write), FILE_READ_DATA) <==> read
        &&& has_all(access_bits(append, read, write), FILE_WRITE_DATA) <==> write && !append
        &&& has_all(access_bits(append, read, write), FILE_APPEND_DATA) <==> write || append
        &&& has_all(access_bits(append, read, write), FILE_WRITE_ATTRIBUTES) <==> write
        &&& has_all(access_bits(append, read, write), READ_CONTROL)
        &&& !has_all(access_bits(append, read, write), GENERIC_WRITE)
    }) by (bit_vector);
}

/// The rights of a handle, one by one, and no others. To read stands for reading
/// data, attributes and extended attributes; to write, for writing and appending
/// data and for writing attributes and extended attributes. Append adds the right to
/// append and takes away the right to write data. Every handle can read its own
/// security descriptor, and one that reads or writes can be waited for.
pub proof fn every_right_has_its_reason(append: bool, read: bool, write: bool)
    ensures
        ({
            let bits = access_bits(append, read, write);
            &&& bits & 0x1 != 0 <==> read
            &&& bits & 0x2 != 0 <==> write && !append
            &&& bits & 0x4 != 0 <==> write || append
            &&& bits & 0x8 != 0 <==> read
            &&& bits & 0x10 != 0 <==> write
            &&& bits & 0x80 != 0 <==> read
            &&& bits & 0x100 != 0 <==> write
            &&& bits & 0x2_0000 != 0
            &&& bits & 0x10_0000 != 0 <==> read || write
            &&& bits & !0x12_019f == 0
        }),
{
    assert({
        let bits = access_bits(append, read, write);
        &&& bits & 0x1 != 0 <==> read
        &&& bits & 0x2 != 0 <==> write && !append
        &&& bits & 0x4 != 0 <==> write || append
        &&& bits & 0x8 != 0 <==> read
        &&& bits & 0x10 != 0 <==> write
        &&& bits & 0x80 != 0 <==> read
        &&& bits & 0x100 != 0 <==> write
        &&& bits & 0x2_0000 != 0
        &&& bits & 0x10_0000 != 0 <==> read || write
        &&& bits & !0x12_019f == 0
    }) by (bit_vector);
}

/// The open flags of a file are the bit for backup semantics and, if one of `DSYNC`,
/// `RSYNC` and `SYNC` is set, the bit to write through: nothing else.
pub proof fn every_open_flag_has_its_reason(fdflags: FdFlags)
    ensures
        ({
            let bits = flag_bits(wants_sync(fdflags));
            let sync = fdflags & 0x2 != 0 || fdflags & 0x8 != 0 || fdflags & 0x10 != 0;
            &&& sync ==> bits == 0x8200_0000
            &&& !sync ==> bits == 0x0200_0000
        }),
{
    assert({
        let bits = flag_bits(wants_sync(fdflags));
        let sync = fdflags & 0x2 != 0 || fdflags & 0x8 != 0 || fdflags & 0x10 != 0;
        &&& sync ==> bits == 0x8200_0000
        &&& !sync ==> bits == 0x0200_0000
    }) by (bit_vector);
}

/// Windows knows the rights, flags and modes by these numbers.
pub proof fn windows_knows_these_numbers()
    ensures
        FILE_READ_DATA == 0x1,
        FILE_WRITE_DATA == 0x2,
        FILE_APPEND_DATA == 0x4,
        FILE_WRITE_ATTRIBUTES == 0x100,
        READ_CONTROL == 0x2_0000,
        GENERIC_WRITE == 0x4000_0000,
        FILE_GENERIC_READ == 0x12_0089,
        FILE_GENERIC_WRITE == 0x12_0116,
        FILE_FLAG_BACKUP_SEMANTICS == 0x0200_0000,
        FILE_FLAG_WRITE_THROUGH == 0x8000_0000,
        FILE_WRITE_THROUGH == 0x2,
{
}

/// `NONBLOCK` changes nothing: the rights and the open flags of a file are the
/// same with it and without.
pub proof fn nonblock_is_ignored(fdflags: FdFlags, read: bool, write: bool)
    ensures
        ({
            let nonblock = fdflags | __WASI_FDFLAGS_NONBLOCK;
            &&& access_bits(is_set(nonblock, __WASI_FDFLAGS_APPEND), read, write) == access_bits(
                is_set(fdflags, __WASI_FDFLAGS_APPEND),
                read,
                write,
            )
            &&& flag_bits(wants_sync(nonblock)) == flag_bits(wants_sync(fdflags))
        }),
{
    assert(is_set(fdflags | __WASI_FDFLAGS_NONBLOCK, __WASI_FDFLAGS_APPEND) == is_set(
        fdflags,
        __WASI_FDFLAGS_APPEND,
    ) && wants_sync(fdflags | __WASI_FDFLAGS_NONBLOCK) == wants_sync(fdflags)) by (bit_vector);
}

/// A file writes through exactly where one of the flags for synchronous writes
/// asks for it, and it can be a directory either way.
pub proof fn any_sync_flag_writes_through(fdflags: FdFlags)
    ensures
        has_all(flag_bits(wants_sync(fdflags)), FILE_FLAG_WRITE_THROUGH) <==> wants_sync(fdflags),
        has_all(flag_bits(wants_sync(fdflags)), FILE_FLAG_BACKUP_SEMANTICS),
{
    let sync = wants_sync(fdflags);
    assert((has_all(flag_bits(sync), FILE_FLAG_WRITE_THROUGH) <==> sync) && has_all(
        flag_bits(sync),
        FILE_FLAG_BACKUP_SEMANTICS,
    )) by (bit_vector);
}

/// Flags that are set together ask for what each of them asks for.
pub proof fn sync_flags_add_up(a: FdFlags, b: FdFlags)
    ensures
        wants_sync(a | b) <==> wants_sync(a) || wants_sync(b),
        flag_bits(wants_sync(a | b)) == flag_bits(wants_sync(a)) | flag_bits(wants_sync(b)),
{
    let x = wants_sync(a);
    let y = wants_sync(b);
    assert(wants_sync(a | b) <==> wants_sync(a) || wants_sync(b)) by (bit_vector);
    assert(flag_bits(x || y) == flag_bits(x) | flag_bits(y)) by (bit_vector);
}

} // verus!
