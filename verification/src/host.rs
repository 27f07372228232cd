//! How a hostcall talks to the operating system.
//!
//! A hostcall does no input or output itself. It is a value that has one request
//! pending at a time. The host performs the request and resumes the hostcall with
//! the reply, until the hostcall is done. Paths never pass through a hostcall: the
//! host keeps them in slots, and requests name the slots.
use crate::error::{Error, OsError};
use crate::rights::{AccessMode, Flags};
use crate::wasi::{FileType, Filestat, FstFlags, Timestamp};
use vstd::prelude::*;

verus! {

/// A file, directory or directory stream that the host holds open.
pub type Handle = u64;

/// Where the host keeps a path during a hostcall.
#[derive(Clone, Copy, Debug, PartialEq, Eq)]
pub enum Slot {
    /// The first of two paths: what is renamed, or what a link points to.
    Source,
    /// The path that the hostcall is about, or the second of two.
    Target,
    /// A path without its trailing slashes.
    Trimmed,
    /// The path of an open directory.
    Directory,
    /// The directory that an open directory is in.
    Parent,
    /// What a link was found to point to.
    Link,
}

/// How a file is to be opened.
#[derive(Clone, Copy, Debug, PartialEq, Eq)]
pub struct OpenSpec {
    pub read: bool,
    pub write: bool,
    pub create: bool,
    pub create_new: bool,
    pub truncate: bool,
    /// The access rights to ask for in place of those that `read` and `write`
    /// stand for.
    pub access_mode: Option<AccessMode>,
    /// Flags beyond those that the other fields stand for.
    pub custom_flags: Option<Flags>,
}

/// What a hostcall asks of the host. `T` is the type of a guest's path:
/// `String`, and its view in contracts.
#[derive(Debug, PartialEq, Eq)]
pub enum Request<T> {
    /// Join a guest's path to the path of the directory `dirfd`, and keep the
    /// result in a slot.
    Concatenate { dirfd: Handle, path: T, into: Slot },
    /// Find out the path of an open file and keep it in a slot.
    FilePath { file: Handle, into: Slot },
    /// If the path in `of` has a parent, keep the parent in `into`.
    Parent { of: Slot, into: Slot },
    IsDir(Slot),
    IsFile(Slot),
    Exists(Slot),
    /// The type of what the path names; a link is not followed.
    SymlinkMetadata(Slot),
    CreateDir(Slot),
    RemoveDir(Slot),
    RemoveFile(Slot),
    Rename { from: Slot, to: Slot },
    /// Create `link`, a link to the file at `target`.
    SymlinkFile { target: Slot, link: Slot },
    /// Create `link`, a link to the directory at `target`.
    SymlinkDir { target: Slot, link: Slot },
    /// Read where the link points and keep that path in a slot.
    ReadLink { link: Slot, into: Slot },
    /// The path relative to `base`, the extended prefix of `base` left out.
    StripPrefix { of: Slot, base: Slot },
    Open { at: Slot, options: OpenSpec },
    /// The type of an open file.
    Metadata(Handle),
    /// The serial number of an open file.
    SerialNumber(Handle),
    Filestat(Handle),
    SetTimes { file: Handle, atim: Timestamp, mtim: Timestamp, fst_flags: FstFlags },
    QueryAccess(Handle),
    QueryMode(Handle),
    /// Open the same file once more, with other rights and flags.
    Reopen { file: Handle, access_mode: AccessMode, flags: Flags },
    /// Where the cursor of the file is.
    SeekCurrent(Handle),
    /// Put the cursor of the file at an offset from its start.
    SeekStart { file: Handle, offset: u64 },
    /// Fill the guest's buffer from an offset of the file.
    SeekRead { file: Handle, offset: u64 },
    /// Write the guest's buffer at an offset of the file.
    SeekWrite { file: Handle, offset: u64 },
    /// Start to list a directory.
    ReadDir(Slot),
    /// Move a directory stream to its next entry.
    NextEntry(Handle),
    /// The name of the entry that a directory stream is at.
    EntryName(Handle),
    /// The type of the entry that a directory stream is at.
    EntryType(Handle),
    /// The serial number of the entry that a directory stream is at.
    EntrySerialNumber(Handle),
}

impl View for Request<String> {
    type V = Request<Seq<char>>;

    open spec fn view(&self) -> Request<Seq<char>> {
        match *self {
            Request::Concatenate { dirfd, path, into } => Request::Concatenate {
                dirfd,
                path: path@,
                into,
            },
            Request::FilePath { file, into } => Request::FilePath { file, into },
            Request::Parent { of, into } => Request::Parent { of, into },
            Request::IsDir(slot) => Request::IsDir(slot),
            Request::IsFile(slot) => Request::IsFile(slot),
            Request::Exists(slot) => Request::Exists(slot),
            Request::SymlinkMetadata(slot) => Request::SymlinkMetadata(slot),
            Request::CreateDir(slot) => Request::CreateDir(slot),
            Request::RemoveDir(slot) => Request::RemoveDir(slot),
            Request::RemoveFile(slot) => Request::RemoveFile(slot),
            Request::Rename { from, to } => Request::Rename { from, to },
            Request::SymlinkFile { target, link } => Request::SymlinkFile { target, link },
            Request::SymlinkDir { target, link } => Request::SymlinkDir { target, link },
            Request::ReadLink { link, into } => Request::ReadLink { link, into },
            Request::StripPrefix { of, base } => Request::StripPrefix { of, base },
            Request::Open { at, options } => Request::Open { at, options },
            Request::Metadata(file) => Request::Metadata(file),
            Request::SerialNumber(file) => Request::SerialNumber(file),
            Request::Filestat(file) => Request::Filestat(file),
            Request::SetTimes { file, atim, mtim, fst_flags } => Request::SetTimes {
                file,
                atim,
                mtim,
                fst_flags,
            },
            Request::QueryAccess(file) => Request::QueryAccess(file),
            Request::QueryMode(file) => Request::QueryMode(file),
            Request::Reopen { file, access_mode, flags } => Request::Reopen {
                file,
                access_mode,
                flags,
            },
            Request::SeekCurrent(file) => Request::SeekCurrent(file),
            Request::SeekStart { file, offset } => Request::SeekStart { file, offset },
            Request::SeekRead { file, offset } => Request::SeekRead { file, offset },
            Request::SeekWrite { file, offset } => Request::SeekWrite { file, offset },
            Request::ReadDir(slot) => Request::ReadDir(slot),
            Request::NextEntry(stream) => Request::NextEntry(stream),
            Request::EntryName(stream) => Request::EntryName(stream),
            Request::EntryType(stream) => Request::EntryType(stream),
            Request::EntrySerialNumber(stream) => Request::EntrySerialNumber(stream),
        }
    }
}

/// A path relative to a directory, if it has that form.
#[derive(Debug, PartialEq, Eq)]
pub enum Relative {
    /// The path does not start with the directory's.
    Outside,
    /// What follows the directory's path is not Unicode.
    NotUnicode,
    Text(String),
}

/// What the host answers.
#[derive(Debug, PartialEq, Eq)]
pub enum Reply {
    /// To `Concatenate` and `FilePath`.
    Located(Result<(), Error>),
    /// To `Parent`, `IsDir`, `IsFile` and `Exists`.
    Answer(bool),
    /// To `SymlinkMetadata`, `Metadata` and `EntryType`.
    Type(Result<FileType, OsError>),
    /// To the requests that change the file system by path, and to `ReadLink`.
    Finished(Result<(), OsError>),
    /// To `StripPrefix`.
    Stripped(Relative),
    /// To `Open` and `ReadDir`.
    Opened(Result<Handle, OsError>),
    /// To `SerialNumber` and `EntrySerialNumber`.
    Serial(Result<u64, OsError>),
    /// To `Filestat`.
    Stat(Result<Filestat, Error>),
    /// To `SetTimes`.
    Applied(Result<(), Error>),
    /// To `QueryAccess` and `QueryMode`.
    Bits(Result<u32, Error>),
    /// To `Reopen`.
    Reopened(Result<Handle, Error>),
    /// To `SeekCurrent` and `SeekStart`: where the cursor is.
    Position(Result<u64, OsError>),
    /// To `SeekRead` and `SeekWrite`: how many bytes were moved.
    Moved(Result<usize, OsError>),
    /// To `NextEntry`: none at the end of the directory.
    Entry(Option<Result<(), OsError>>),
    /// To `EntryName`.
    Name(Result<String, Error>),
}

/// The reply is of the kind that the request asks for.
pub open spec fn answers(reply: Reply, request: Request<Seq<char>>) -> bool {
    match request {
        Request::Concatenate { .. } | Request::FilePath { .. } => reply is Located,
        Request::Parent { .. }
        | Request::IsDir(_)
        | Request::IsFile(_)
        | Request::Exists(_) => reply is Answer,
        Request::SymlinkMetadata(_) | Request::Metadata(_) | Request::EntryType(_) => reply is Type,
        Request::CreateDir(_)
        | Request::RemoveDir(_)
        | Request::RemoveFile(_)
        | Request::Rename { .. }
        | Request::SymlinkFile { .. }
        | Request::SymlinkDir { .. }
        | Request::ReadLink { .. } => reply is Finished,
        Request::StripPrefix { .. } => reply is Stripped,
        Request::Open { .. } | Request::ReadDir(_) => reply is Opened,
        Request::SerialNumber(_) | Request::EntrySerialNumber(_) => reply is Serial,
        Request::Filestat(_) => reply is Stat,
        Request::SetTimes { .. } => reply is Applied,
        Request::QueryAccess(_) | Request::QueryMode(_) => reply is Bits,
        Request::Reopen { .. } => reply is Reopened,
        Request::SeekCurrent(_) | Request::SeekStart { .. } => reply is Position,
        Request::SeekRead { .. } | Request::SeekWrite { .. } => reply is Moved,
        Request::NextEntry(_) => reply is Entry,
        Request::EntryName(_) => reply is Name,
    }
}

/// Where a hostcall stands after a reply.
#[derive(Debug, PartialEq, Eq)]
pub enum Outcome<C, T> {
    /// It has another request.
    Continue(C),
    /// It has ended, with this result.
    Done(Result<T, Error>),
}

/// A hostcall under way.
pub trait Hostcall: Sized {
    type Output;

    /// The pending request.
    spec fn asks(self) -> Request<Seq<char>>;

    /// What a reply to the pending request leads to.
    spec fn after(self, reply: Reply) -> Outcome<Self, Self::Output>;

    /// A reply that is none to the pending request leaves the hostcall as it is.
    proof fn other_replies_change_nothing(self, reply: Reply)
        requires
            !answers(reply, self.asks()),
        ensures
            self.after(reply) == Outcome::<Self, Self::Output>::Continue(self),
    ;

    fn request(&self) -> (request: Request<String>)
        ensures
            request@ == self.asks(),
    ;

    fn resume(self, reply: Reply) -> (outcome: Outcome<Self, Self::Output>)
        ensures
            outcome == self.after(reply),
    ;
}

/// A host, for the laws: what it answers to each request. The first argument of
/// each function counts the requests that came before, so that one host may
/// answer the same question differently at another time.
pub struct Host {
    pub concatenate: spec_fn(nat, Handle, Seq<char>, Slot) -> Result<(), Error>,
    pub file_path: spec_fn(nat, Handle, Slot) -> Result<(), Error>,
    pub has_parent: spec_fn(nat, Slot, Slot) -> bool,
    pub is_dir: spec_fn(nat, Slot) -> bool,
    pub is_file: spec_fn(nat, Slot) -> bool,
    pub exists_at: spec_fn(nat, Slot) -> bool,
    pub type_at: spec_fn(nat, Slot) -> Result<FileType, OsError>,
    pub create_dir: spec_fn(nat, Slot) -> Result<(), OsError>,
    pub remove_dir: spec_fn(nat, Slot) -> Result<(), OsError>,
    pub remove_file: spec_fn(nat, Slot) -> Result<(), OsError>,
    pub rename: spec_fn(nat, Slot, Slot) -> Result<(), OsError>,
    pub symlink_file: spec_fn(nat, Slot, Slot) -> Result<(), OsError>,
    pub symlink_dir: spec_fn(nat, Slot, Slot) -> Result<(), OsError>,
    pub read_link: spec_fn(nat, Slot, Slot) -> Result<(), OsError>,
    pub strip_prefix: spec_fn(nat, Slot, Slot) -> Relative,
    pub open_file: spec_fn(nat, Slot, OpenSpec) -> Result<Handle, OsError>,
    pub type_of: spec_fn(nat, Handle) -> Result<FileType, OsError>,
    pub serial_number: spec_fn(nat, Handle) -> Result<u64, OsError>,
    pub filestat: spec_fn(nat, Handle) -> Result<Filestat, Error>,
    pub set_times: spec_fn(nat, Handle, Timestamp, Timestamp, FstFlags) -> Result<(), Error>,
    pub access: spec_fn(nat, Handle) -> Result<u32, Error>,
    pub mode: spec_fn(nat, Handle) -> Result<u32, Error>,
    pub reopen: spec_fn(nat, Handle, AccessMode, Flags) -> Result<Handle, Error>,
    pub cursor: spec_fn(nat, Handle) -> Result<u64, OsError>,
    pub seek_start: spec_fn(nat, Handle, u64) -> Result<u64, OsError>,
    pub seek_read: spec_fn(nat, Handle, u64) -> Result<usize, OsError>,
    pub seek_write: spec_fn(nat, Handle, u64) -> Result<usize, OsError>,
    pub read_dir: spec_fn(nat, Slot) -> Result<Handle, OsError>,
    pub next_entry: spec_fn(nat, Handle) -> Option<Result<(), OsError>>,
    pub entry_name: spec_fn(nat, Handle) -> Result<String, Error>,
    pub entry_type: spec_fn(nat, Handle) -> Result<FileType, OsError>,
    pub entry_serial_number: spec_fn(nat, Handle) -> Result<u64, OsError>,
}

impl Host {
    /// The reply to the request that comes after `n` others.
    pub open spec fn answer(self, n: nat, request: Request<Seq<char>>) -> Reply {
        match request {
            Request::Concatenate { dirfd, path, into } => Reply::Located(
                (self.concatenate)(n, dirfd, path, into),
            ),
            Request::FilePath { file, into } => Reply::Located((self.file_path)(n, file, into)),
            Request::Parent { of, into } => Reply::Answer((self.has_parent)(n, of, into)),
            Request::IsDir(slot) => Reply::Answer((self.is_dir)(n, slot)),
            Request::IsFile(slot) => Reply::Answer((self.is_file)(n, slot)),
            Request::Exists(slot) => Reply::Answer((self.exists_at)(n, slot)),
            Request::SymlinkMetadata(slot) => Reply::Type((self.type_at)(n, slot)),
            Request::CreateDir(slot) => Reply::Finished((self.create_dir)(n, slot)),
            Request::RemoveDir(slot) => Reply::Finished((self.remove_dir)(n, slot)),
            Request::RemoveFile(slot) => Reply::Finished((self.remove_file)(n, slot)),
            Request::Rename { from, to } => Reply::Finished((self.rename)(n, from, to)),
            Request::SymlinkFile { target, link } => Reply::Finished(
                (self.symlink_file)(n, target, link),
            ),
            Request::SymlinkDir { target, link } => Reply::Finished(
                (self.symlink_dir)(n, target, link),
            ),
            Request::ReadLink { link, into } => Reply::Finished((self.read_link)(n, link, into)),
            Request::StripPrefix { of, base } => Reply::Stripped(
                (self.strip_prefix)(n, of, base),
            ),
            Request::Open { at, options } => Reply::Opened((self.open_file)(n, at, options)),
            Request::Metadata(file) => Reply::Type((self.type_of)(n, file)),
            Request::SerialNumber(file) => Reply::Serial((self.serial_number)(n, file)),
            Request::Filestat(file) => Reply::Stat((self.filestat)(n, file)),
            Request::SetTimes { file, atim, mtim, fst_flags } => Reply::Applied(
                (self.set_times)(n, file, atim, mtim, fst_flags),
            ),
            Request::QueryAccess(file) => Reply::Bits((self.access)(n, file)),
            Request::QueryMode(file) => Reply::Bits((self.mode)(n, file)),
            Request::Reopen { file, access_mode, flags } => Reply::Reopened(
                (self.reopen)(n, file, access_mode, flags),
            ),
            Request::SeekCurrent(file) => Reply::Position((self.cursor)(n, file)),
            Request::SeekStart { file, offset } => Reply::Position(
                (self.seek_start)(n, file, offset),
            ),
            Request::SeekRead { file, offset } => Reply::Moved((self.seek_read)(n, file, offset)),
            Request::SeekWrite { file, offset } => Reply::Moved(
                (self.seek_write)(n, file, offset),
            ),
            Request::ReadDir(slot) => Reply::Opened((self.read_dir)(n, slot)),
            Request::NextEntry(stream) => Reply::Entry((self.next_entry)(n, stream)),
            Request::EntryName(stream) => Reply::Name((self.entry_name)(n, stream)),
            Request::EntryType(stream) => Reply::Type((self.entry_type)(n, stream)),
            Request::EntrySerialNumber(stream) => Reply::Serial(
                (self.entry_serial_number)(n, stream),
            ),
        }
    }
}

/// The contracts see a request as it is: of the same kind, with the same handles, slots,
/// options and numbers, and with the letters of its path.
pub proof fn a_request_is_seen_as_it_is(request: Request<String>)
    ensures
        match request {
            Request::Concatenate { dirfd, path, into } => {
                &&& request@ is Concatenate
                &&& request@->Concatenate_dirfd == dirfd
                &&& request@->Concatenate_path == path@
                &&& request@->Concatenate_into == into
            },
            Request::FilePath { file, into } => request@ is FilePath && request@->FilePath_file
                == file && request@->FilePath_into == into,
            Request::Parent { of, into } => request@ is Parent && request@->Parent_of == of
                && request@->Parent_into == into,
            Request::IsDir(at) => request@ is IsDir && request@->IsDir_0 == at,
            Request::IsFile(at) => request@ is IsFile && request@->IsFile_0 == at,
            Request::Exists(at) => request@ is Exists && request@->Exists_0 == at,
            Request::SymlinkMetadata(at) => request@ is SymlinkMetadata
                && request@->SymlinkMetadata_0 == at,
            Request::CreateDir(at) => request@ is CreateDir && request@->CreateDir_0 == at,
            Request::RemoveDir(at) => request@ is RemoveDir && request@->RemoveDir_0 == at,
            Request::RemoveFile(at) => request@ is RemoveFile && request@->RemoveFile_0 == at,
            Request::Rename { from, to } => request@ is Rename && request@->Rename_from == from
                && request@->Rename_to == to,
            Request::SymlinkFile { target, link } => request@ is SymlinkFile
                && request@->SymlinkFile_target == target && request@->SymlinkFile_link == link,
            Request::SymlinkDir { target, link } => request@ is SymlinkDir
                && request@->SymlinkDir_target == target && request@->SymlinkDir_link == link,
            Request::ReadLink { link, into } => request@ is ReadLink && request@->ReadLink_link
                == link && request@->ReadLink_into == into,
            Request::StripPrefix { of, base } => request@ is StripPrefix
                && request@->StripPrefix_of == of && request@->StripPrefix_base == base,
            Request::Open { at, options } => request@ is Open && request@->Open_at == at
                && request@->Open_options == options,
            Request::Metadata(file) => request@ is Metadata && request@->Metadata_0 == file,
            Request::SerialNumber(file) => request@ is SerialNumber && request@->SerialNumber_0
                == file,
            Request::Filestat(file) => request@ is Filestat && request@->Filestat_0 == file,
            Request::SetTimes { file, atim, mtim, fst_flags } => {
                &&& request@ is SetTimes
                &&& request@->SetTimes_file == file
                &&& request@->SetTimes_atim == atim
                &&& request@->SetTimes_mtim == mtim
                &&& request@->SetTimes_fst_flags == fst_flags
            },
            Request::QueryAccess(file) => request@ is QueryAccess && request@->QueryAccess_0
                == file,
            Request::QueryMode(file) => request@ is QueryMode && request@->QueryMode_0 == file,
            Request::Reopen { file, access_mode, flags } => {
                &&& request@ is Reopen
                &&& request@->Reopen_file == file
                &&& request@->Reopen_access_mode == access_mode
                &&& request@->Reopen_flags == flags
            },
            Request::SeekCurrent(file) => request@ is SeekCurrent && request@->SeekCurrent_0
                == file,
            Request::SeekStart { file, offset } => request@ is SeekStart
                && request@->SeekStart_file == file && request@->SeekStart_offset == offset,
            Request::SeekRead { file, offset } => request@ is SeekRead
                && request@->SeekRead_file == file && request@->SeekRead_offset == offset,
            Request::SeekWrite { file, offset } => request@ is SeekWrite
                && request@->SeekWrite_file == file && request@->SeekWrite_offset == offset,
            Request::ReadDir(at) => request@ is ReadDir && request@->ReadDir_0 == at,
            Request::NextEntry(stream) => request@ is NextEntry && request@->NextEntry_0 == stream,
            Request::EntryName(stream) => request@ is EntryName && request@->EntryName_0 == stream,
            Request::EntryType(stream) => request@ is EntryType && request@->EntryType_0 == stream,
            Request::EntrySerialNumber(stream) => request@ is EntrySerialNumber
                && request@->EntrySerialNumber_0 == stream,
        },
{
}

/// Only replies of one kind answer a request: those of the kind that a host gives.
pub proof fn replies_of_one_kind_answer(
    host: Host,
    n: nat,
    request: Request<Seq<char>>,
    reply: Reply,
)
    ensures
        answers(reply, request) <==> match host.answer(n, request) {
            Reply::Located(_) => reply is Located,
            Reply::Answer(_) => reply is Answer,
            Reply::Type(_) => reply is Type,
            Reply::Finished(_) => reply is Finished,
            Reply::Stripped(_) => reply is Stripped,
            Reply::Opened(_) => reply is Opened,
            Reply::Serial(_) => reply is Serial,
            Reply::Stat(_) => reply is Stat,
            Reply::Applied(_) => reply is Applied,
            Reply::Bits(_) => reply is Bits,
            Reply::Reopened(_) => reply is Reopened,
            Reply::Position(_) => reply is Position,
            Reply::Moved(_) => reply is Moved,
            Reply::Entry(_) => reply is Entry,
            Reply::Name(_) => reply is Name,
        },
{
}

/// What a host answers is a reply to what it was asked.
pub proof fn hosts_answer(host: Host, n: nat, request: Request<Seq<char>>)
    ensures
        answers(host.answer(n, request), request),
{
}

/// The result of a hostcall that a host runs to its end: none if it has not
/// ended after `limit` replies.
pub open spec fn run<C: Hostcall>(call: C, host: Host, n: nat, limit: nat) -> Option<
    Result<C::Output, Error>,
>
    decreases limit,
{
    if limit == 0 {
        None
    } else {
        match call.after(host.answer(n, call.asks())) {
            Outcome::Done(result) => Some(result),
            Outcome::Continue(next) => run(next, host, n + 1, (limit - 1) as nat),
        }
    }
}

/// The result of a hostcall that starts with `outcome`: none if it has not ended
/// after `limit` replies.
pub open spec fn run_from<C: Hostcall>(
    outcome: Outcome<C, C::Output>,
    host: Host,
    n: nat,
    limit: nat,
) -> Option<Result<C::Output, Error>> {
    match outcome {
        Outcome::Done(result) => Some(result),
        Outcome::Continue(call) => run(call, host, n, limit),
    }
}

/// The requests that a hostcall makes, in their order, until it ends or `limit`
/// of them were made.
pub open spec fn requests<C: Hostcall>(call: C, host: Host, n: nat, limit: nat) -> Seq<
    Request<Seq<char>>,
>
    decreases limit,
{
    if limit == 0 {
        seq![]
    } else {
        seq![call.asks()] + match call.after(host.answer(n, call.asks())) {
            Outcome::Done(_) => seq![],
            Outcome::Continue(next) => requests(next, host, n + 1, (limit - 1) as nat),
        }
    }
}

/// The requests of a hostcall that starts with `outcome`, until it ends or
/// `limit` of them were made.
pub open spec fn requests_from<C: Hostcall>(
    outcome: Outcome<C, C::Output>,
    host: Host,
    n: nat,
    limit: nat,
) -> Seq<Request<Seq<char>>> {
    match outcome {
        Outcome::Done(_) => seq![],
        Outcome::Continue(call) => requests(call, host, n, limit),
    }
}

/// What the host answers to the last request that a hostcall makes.
pub open spec fn last_reply<C: Hostcall>(call: C, host: Host, n: nat, limit: nat) -> Reply {
    let made = requests(call, host, n, limit);
    host.answer((n + made.len() - 1) as nat, made.last())
}

/// The last reply that a hostcall gets is the last that it gets once it has gone on
/// after the first. One that ends with the first reply gets no other.
pub proof fn the_last_reply_comes_last<C: Hostcall>(call: C, host: Host, n: nat, limit: nat)
    requires
        limit > 0,
    ensures
        requests(call, host, n, limit).len() > 0,
        match call.after(host.answer(n, call.asks())) {
            Outcome::Continue(next) if limit > 1 => {
                let rest = requests(next, host, n + 1, (limit - 1) as nat);
                &&& requests(call, host, n, limit) == seq![call.asks()] + rest
                &&& requests(call, host, n, limit).last() == rest.last()
                &&& last_reply(call, host, n, limit) == last_reply(
                    next,
                    host,
                    n + 1,
                    (limit - 1) as nat,
                )
            },
            _ => {
                &&& requests(call, host, n, limit).last() == call.asks()
                &&& last_reply(call, host, n, limit) == host.answer(n, call.asks())
            },
        },
{
    reveal_with_fuel(requests, 3);
}

/// The request reads the path in the slot.
pub open spec fn reads_slot(request: Request<Seq<char>>, slot: Slot) -> bool {
    match request {
        Request::Parent { of, .. } => slot == of,
        Request::IsDir(at)
        | Request::IsFile(at)
        | Request::Exists(at)
        | Request::SymlinkMetadata(at)
        | Request::CreateDir(at)
        | Request::RemoveDir(at)
        | Request::RemoveFile(at)
        | Request::ReadDir(at) => slot == at,
        Request::Rename { from, to } => slot == from || slot == to,
        Request::SymlinkFile { target, link } => slot == target || slot == link,
        Request::SymlinkDir { target, link } => slot == target || slot == link,
        Request::ReadLink { link, .. } => slot == link,
        Request::StripPrefix { of, base } => slot == of || slot == base,
        Request::Open { at, .. } => slot == at,
        _ => false,
    }
}

/// The slot that the request fills, if the reply says that it did.
pub open spec fn filled_slot(request: Request<Seq<char>>, reply: Reply) -> Option<Slot> {
    match (request, reply) {
        (Request::Concatenate { into, .. }, Reply::Located(Ok(()))) => Some(into),
        (Request::FilePath { into, .. }, Reply::Located(Ok(()))) => Some(into),
        (Request::Parent { into, .. }, Reply::Answer(true)) => Some(into),
        (Request::ReadLink { into, .. }, Reply::Finished(Ok(()))) => Some(into),
        _ => None,
    }
}

/// The handle that the request names.
pub open spec fn named_handle(request: Request<Seq<char>>) -> Option<Handle> {
    match request {
        Request::Concatenate { dirfd, .. } => Some(dirfd),
        Request::FilePath { file, .. } => Some(file),
        Request::Metadata(file)
        | Request::SerialNumber(file)
        | Request::Filestat(file)
        | Request::QueryAccess(file)
        | Request::QueryMode(file)
        | Request::SeekCurrent(file) => Some(file),
        Request::SetTimes { file, .. } => Some(file),
        Request::Reopen { file, .. } => Some(file),
        Request::SeekStart { file, .. } => Some(file),
        Request::SeekRead { file, .. } => Some(file),
        Request::SeekWrite { file, .. } => Some(file),
        Request::NextEntry(stream)
        | Request::EntryName(stream)
        | Request::EntryType(stream)
        | Request::EntrySerialNumber(stream) => Some(stream),
        _ => None,
    }
}

/// What a request may rely on.
pub struct Ready {
    /// The slots that hold a path.
    pub slots: Set<Slot>,
    /// The handles that the hostcall was given.
    pub given: Set<Handle>,
    /// The handle that the hostcall opened last.
    pub opened: Option<Handle>,
}

/// Nothing is kept yet but for the handles that the hostcall was given.
pub open spec fn ready_with(given: Set<Handle>) -> Ready {
    Ready { slots: Set::empty(), given, opened: None }
}

impl Ready {
    /// Every slot that the request reads holds a path, and the handle that it
    /// names is one that the hostcall was given or opened last.
    pub open spec fn for_request(self, request: Request<Seq<char>>) -> bool {
        &&& forall|slot: Slot| #[trigger] reads_slot(request, slot) ==> self.slots.contains(slot)
        &&& named_handle(request) matches Some(handle) ==> {
            ||| self.given.contains(handle)
            ||| self.opened == Some(handle)
        }
    }

    /// What the next request may rely on.
    pub open spec fn after(self, request: Request<Seq<char>>, reply: Reply) -> Ready {
        Ready {
            slots: match filled_slot(request, reply) {
                Some(slot) => self.slots.insert(slot),
                None => self.slots,
            },
            given: self.given,
            opened: match reply {
                Reply::Opened(Ok(handle)) => Some(handle),
                Reply::Reopened(Ok(handle)) => Some(handle),
                _ => self.opened,
            },
        }
    }
}

/// Each of the first `limit` requests of a hostcall finds ready what it relies
/// on: its paths are in their slots by earlier requests, and its handle is one
/// that was given or opened last. So a host may close a file when it opens the
/// next.
pub open spec fn finds_ready<C: Hostcall>(
    call: C,
    host: Host,
    n: nat,
    limit: nat,
    ready: Ready,
) -> bool
    decreases limit,
{
    limit == 0 || {
        let reply = host.answer(n, call.asks());
        &&& ready.for_request(call.asks())
        &&& call.after(reply) matches Outcome::Continue(next) ==> finds_ready(
            next,
            host,
            n + 1,
            (limit - 1) as nat,
            ready.after(call.asks(), reply),
        )
    }
}

} // verus!
