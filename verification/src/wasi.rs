//! The part of the WASI snapshot that the hostcalls of this crate speak: flag
//! words, their bits, and the records handed back to the guest.
use vstd::prelude::*;

verus! {

pub type FdFlags = u16;

pub type OFlags = u16;

pub type FstFlags = u16;

pub type LookupFlags = u32;

pub type Advice = u8;

pub type DirCookie = u64;

pub type FileSize = u64;

pub type Timestamp = u64;

pub const __WASI_FDFLAGS_APPEND: u16 = 0x1;

pub const __WASI_FDFLAGS_DSYNC: u16 = 0x2;

pub const __WASI_FDFLAGS_NONBLOCK: u16 = 0x4;

pub const __WASI_FDFLAGS_RSYNC: u16 = 0x8;

pub const __WASI_FDFLAGS_SYNC: u16 = 0x10;

pub const __WASI_OFLAGS_CREAT: u16 = 0x1;

pub const __WASI_OFLAGS_DIRECTORY: u16 = 0x2;

pub const __WASI_OFLAGS_EXCL: u16 = 0x4;

pub const __WASI_OFLAGS_TRUNC: u16 = 0x8;

pub const __WASI_ADVICE_NORMAL: u8 = 0;

pub const __WASI_ADVICE_SEQUENTIAL: u8 = 1;

pub const __WASI_ADVICE_RANDOM: u8 = 2;

pub const __WASI_ADVICE_WILLNEED: u8 = 3;

pub const __WASI_ADVICE_DONTNEED: u8 = 4;

pub const __WASI_ADVICE_NOREUSE: u8 = 5;

/// The cookie that asks for a directory from its first entry on.
pub const __WASI_DIRCOOKIE_START: u64 = 0;

/// The guest knows the flags, the kinds of advice and the first cookie by these
/// numbers.
pub proof fn the_guest_knows_these_numbers()
    ensures
        __WASI_FDFLAGS_APPEND == 1,
        __WASI_FDFLAGS_DSYNC == 2,
        __WASI_FDFLAGS_NONBLOCK == 4,
        __WASI_FDFLAGS_RSYNC == 8,
        __WASI_FDFLAGS_SYNC == 16,
        __WASI_OFLAGS_CREAT == 1,
        __WASI_OFLAGS_DIRECTORY == 2,
        __WASI_OFLAGS_EXCL == 4,
        __WASI_OFLAGS_TRUNC == 8,
        __WASI_ADVICE_NORMAL == 0,
        __WASI_ADVICE_SEQUENTIAL == 1,
        __WASI_ADVICE_RANDOM == 2,
        __WASI_ADVICE_WILLNEED == 3,
        __WASI_ADVICE_DONTNEED == 4,
        __WASI_ADVICE_NOREUSE == 5,
        __WASI_DIRCOOKIE_START == 0,
{
}

/// What a name in the file system stands for.
#[derive(Clone, Copy, Debug, PartialEq, Eq)]
pub enum FileType {
    Unknown,
    BlockDevice,
    CharacterDevice,
    Directory,
    RegularFile,
    SocketDgram,
    SocketStream,
    Symlink,
}

/// One entry of a directory, as the guest sees it.
#[derive(Debug, PartialEq, Eq)]
pub struct Dirent {
    pub name: String,
    pub ftype: FileType,
    pub ino: u64,
    pub cookie: DirCookie,
}

/// The attributes of a file.
#[derive(Clone, Copy, Debug, PartialEq, Eq)]
pub struct Filestat {
    pub dev: u64,
    pub ino: u64,
    pub filetype: FileType,
    pub nlink: u64,
    pub size: FileSize,
    pub atim: Timestamp,
    pub mtim: Timestamp,
    pub ctim: Timestamp,
}

} // verus!
