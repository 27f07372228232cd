//! Listing a directory.
//!
//! Windows can neither start to list a directory in the middle nor does its
//! listing hold `.` and `..`. So the two are made up, entries are numbered in the
//! order in which they come, and a listing that is to start at some entry starts
//! at the first and skips. This relies on the order staying the same as long as
//! the directory does.
//!
//! The number of an entry is its cookie: 1 for `.`, 2 for `..`, and so on from 3
//! for the entries that the operating system lists. Cookie 0 stands for the start.
use crate::error::Error;
use crate::host::{
    self, Handle, Host, Hostcall, OpenSpec, Outcome, Ready, Reply, Request, Slot,
};
use crate::rights::{Flags, FILE_FLAG_BACKUP_SEMANTICS};
use crate::wasi::{DirCookie, Dirent, FileType};
use vstd::prelude::*;

verus! {

/// The cookie of `.`.
pub const DOT_COOKIE: u64 = 1;

/// The cookie of `..`.
pub const DOTDOT_COOKIE: u64 = 2;

/// The cookie of the first entry that the operating system lists.
pub const FIRST_COOKIE: u64 = 3;

/// What `dirent_from_path` waits for.
#[derive(Clone, Copy, Debug, PartialEq, Eq)]
pub enum DirentStage {
    /// The open directory.
    Open,
    /// The type of an open directory.
    Type(Handle),
    /// The serial number of an open directory, whose type is known.
    Serial(Handle, FileType),
}

/// `dirent_from_path` under way.
#[derive(Debug, PartialEq, Eq)]
pub struct DirentFromPath {
    pub at: Slot,
    pub name: String,
    pub cookie: DirCookie,
    pub stage: DirentStage,
}

/// How a directory is opened: backup semantics let it be opened as a file.
pub open spec fn directory_options() -> OpenSpec {
    OpenSpec {
        read: true,
        write: false,
        create: false,
        create_new: false,
        truncate: false,
        access_mode: None,
        custom_flags: Some(Flags { bits: FILE_FLAG_BACKUP_SEMANTICS }),
    }
}

impl Hostcall for DirentFromPath {
    type Output = Dirent;

    open spec fn asks(self) -> Request<Seq<char>> {
        match self.stage {
            DirentStage::Open => Request::Open { at: self.at, options: directory_options() },
            DirentStage::Type(file) => Request::Metadata(file),
            DirentStage::Serial(file, _) => Request::SerialNumber(file),
        }
    }

    open spec fn after(self, reply: Reply) -> Outcome<Self, Dirent> {
        match (self.stage, reply) {
            (DirentStage::Open, Reply::Opened(Ok(file))) => Outcome::Continue(
                DirentFromPath { stage: DirentStage::Type(file), ..self },
            ),
            (DirentStage::Open, Reply::Opened(Err(error))) => Outcome::Done(
                Err(Error::Io(error)),
            ),
            (DirentStage::Type(file), Reply::Type(Ok(ftype))) => Outcome::Continue(
                DirentFromPath { stage: DirentStage::Serial(file, ftype), ..self },
            ),
            (DirentStage::Type(_), Reply::Type(Err(error))) => Outcome::Done(
                Err(Error::Io(error)),
            ),
            (DirentStage::Serial(_, ftype), Reply::Serial(Ok(ino))) => Outcome::Done(
                Ok(Dirent { name: self.name, ftype, ino, cookie: self.cookie }),
            ),
            (DirentStage::Serial(_, _), Reply::Serial(Err(error))) => Outcome::Done(
                Err(Error::Io(error)),
            ),
            _ => Outcome::Continue(self),
        }
    }

    proof fn other_replies_change_nothing(self, reply: Reply) {
    }

    fn request(&self) -> Request<String> {
        match self.stage {
            DirentStage::Open => Request::Open {
                at: self.at,
                options: OpenSpec {
                    read: true,
                    write: false,
                    create: false,
                    create_new: false,
                    truncate: false,
                    access_mode: None,
                    custom_flags: Some(Flags { bits: FILE_FLAG_BACKUP_SEMANTICS }),
                },
            },
            DirentStage::Type(file) => Request::Metadata(file),
            DirentStage::Serial(file, _) => Request::SerialNumber(file),
        }
    }

    fn resume(self, reply: Reply) -> Outcome<Self, Dirent> {
        match (self.stage, reply) {
            (DirentStage::Open, Reply::Opened(Ok(file))) => Outcome::Continue(
                DirentFromPath { stage: DirentStage::Type(file), ..self },
            ),
            (DirentStage::Open, Reply::Opened(Err(error))) => Outcome::Done(
                Err(Error::Io(error)),
            ),
            (DirentStage::Type(file), Reply::Type(Ok(ftype))) => Outcome::Continue(
                DirentFromPath { stage: DirentStage::Serial(file, ftype), ..self },
            ),
            (DirentStage::Type(_), Reply::Type(Err(error))) => Outcome::Done(
                Err(Error::Io(error)),
            ),
            (DirentStage::Serial(_, ftype), Reply::Serial(Ok(ino))) => Outcome::Done(
                Ok(Dirent { name: self.name, ftype, ino, cookie: self.cookie }),
            ),
            (DirentStage::Serial(_, _), Reply::Serial(Err(error))) => Outcome::Done(
                Err(Error::Io(error)),
            ),
            _ => Outcome::Continue(self),
        }
    }
}

/// Describes the directory at a path under a name of its own. On every host this
/// ends after at most three replies, with [`dirent_from_path_result`].
pub fn dirent_from_path(at: Slot, name: &str, cookie: DirCookie) -> (call: DirentFromPath)
    ensures
        call.at == at,
        call.name@ == name@,
        call.cookie == cookie,
        call.stage == DirentStage::Open,
        forall|host: Host, n: nat| #[trigger]
            host::run(call, host, n, 3) == Some(
                dirent_from_path_result(at, call.name, cookie, host, n),
            ),
{
    let call = DirentFromPath { at, name: name.to_owned(), cookie, stage: DirentStage::Open };
    proof {
        assert forall|host: Host, n: nat| #[trigger]
            host::run(call, host, n, 3) == Some(
                dirent_from_path_result(at, call.name, cookie, host, n),
            ) by {
            dirent_from_path_ends(call, host, n);
        }
    }
    call
}

/// What `dirent_from_path` returns on a host.
pub open spec fn dirent_from_path_result(
    at: Slot,
    name: String,
    cookie: DirCookie,
    host: Host,
    n: nat,
) -> Result<Dirent, Error> {
    let opened = (host.open_file)(n, at, directory_options());
    let ftype = (host.type_of)(n + 1, opened->Ok_0);
    let ino = (host.serial_number)(n + 2, opened->Ok_0);
    if opened is Err {
        Err(Error::Io(opened->Err_0))
    } else if ftype is Err {
        Err(Error::Io(ftype->Err_0))
    } else if ino is Err {
        Err(Error::Io(ino->Err_0))
    } else {
        Ok(Dirent { name, ftype: ftype->Ok_0, ino: ino->Ok_0, cookie })
    }
}

/// On every host `dirent_from_path` ends after at most three replies, with its
/// result.
pub proof fn dirent_from_path_ends(call: DirentFromPath, host: Host, n: nat)
    requires
        call.stage == DirentStage::Open,
    ensures
        host::run(call, host, n, 3) == Some(
            dirent_from_path_result(call.at, call.name, call.cookie, host, n),
        ),
{
    reveal_with_fuel(host::run, 4);
}

/// A directory that is being listed.
#[derive(Debug, PartialEq, Eq)]
pub struct ReadDir {
    pub stream: Handle,
    /// The entry `.`, until it has had its turn.
    pub dot: Option<Dirent>,
    /// The entry `..`, until it has had its turn.
    pub dotdot: Option<Dirent>,
    /// The cookie of the next entry that the operating system lists.
    pub next_cookie: DirCookie,
    /// How many entries are still to be skipped.
    pub to_skip: usize,
}

/// A directory before its first entry was asked for.
pub open spec fn started(stream: Handle, dot: Dirent, dotdot: Dirent, skip: usize) -> ReadDir {
    ReadDir {
        stream,
        dot: Some(dot),
        dotdot: Some(dotdot),
        next_cookie: FIRST_COOKIE,
        to_skip: skip,
    }
}

/// `fd_readdir` under way, until the directory can be listed.
#[derive(Debug, PartialEq, Eq)]
pub enum FdReaddir {
    /// Waits for the path of the directory.
    Locate { fd: Handle, skip: usize, dot: DirentFromPath, dotdot: DirentFromPath },
    /// Waits for whether that path has a parent.
    Parent { skip: usize, dot: DirentFromPath, dotdot: DirentFromPath },
    /// Waits for the entry `.`.
    Dot { skip: usize, dot: DirentFromPath, dotdot: DirentFromPath },
    /// Waits for the entry `..`.
    DotDot { skip: usize, first: Dirent, dotdot: DirentFromPath },
    /// Waits for the list of the other entries.
    List { skip: usize, first: Dirent, second: Dirent },
}

impl Hostcall for FdReaddir {
    type Output = ReadDir;

    open spec fn asks(self) -> Request<Seq<char>> {
        match self {
            FdReaddir::Locate { fd, .. } => Request::FilePath { file: fd, into: Slot::Directory },
            FdReaddir::Parent { .. } => Request::Parent {
                of: Slot::Directory,
                into: Slot::Parent,
            },
            FdReaddir::Dot { dot, .. } => dot.asks(),
            FdReaddir::DotDot { dotdot, .. } => dotdot.asks(),
            FdReaddir::List { .. } => Request::ReadDir(Slot::Directory),
        }
    }

    open spec fn after(self, reply: Reply) -> Outcome<Self, ReadDir> {
        match self {
            FdReaddir::Locate { fd, skip, dot, dotdot } => match reply {
                Reply::Located(Ok(())) => Outcome::Continue(
                    FdReaddir::Parent { skip, dot, dotdot },
                ),
                Reply::Located(Err(error)) => Outcome::Done(Err(error)),
                _ => Outcome::Continue(self),
            },
            FdReaddir::Parent { skip, dot, dotdot } => match reply {
                // The directory that has no parent is its own.
                Reply::Answer(has_parent) => Outcome::Continue(
                    FdReaddir::Dot {
                        skip,
                        dot,
                        dotdot: DirentFromPath {
                            at: if has_parent {
                                Slot::Parent
                            } else {
                                Slot::Directory
                            },
                            ..dotdot
                        },
                    },
                ),
                _ => Outcome::Continue(self),
            },
            FdReaddir::Dot { skip, dot, dotdot } => match dot.after(reply) {
                Outcome::Continue(dot) => Outcome::Continue(FdReaddir::Dot { skip, dot, dotdot }),
                Outcome::Done(Ok(first)) => Outcome::Continue(
                    FdReaddir::DotDot { skip, first, dotdot },
                ),
                Outcome::Done(Err(error)) => Outcome::Done(Err(error)),
            },
            FdReaddir::DotDot { skip, first, dotdot } => match dotdot.after(reply) {
                Outcome::Continue(dotdot) => Outcome::Continue(
                    FdReaddir::DotDot { skip, first, dotdot },
                ),
                Outcome::Done(Ok(second)) => Outcome::Continue(
                    FdReaddir::List { skip, first, second },
                ),
                Outcome::Done(Err(error)) => Outcome::Done(Err(error)),
            },
            FdReaddir::List { skip, first, second } => match reply {
                Reply::Opened(Ok(stream)) => Outcome::Done(
                    Ok(started(stream, first, second, skip)),
                ),
                Reply::Opened(Err(error)) => Outcome::Done(Err(Error::Io(error))),
                _ => Outcome::Continue(self),
            },
        }
    }

    proof fn other_replies_change_nothing(self, reply: Reply) {
    }

    fn request(&self) -> Request<String> {
        match self {
            FdReaddir::Locate { fd, .. } => Request::FilePath { file: *fd, into: Slot::Directory },
            FdReaddir::Parent { .. } => Request::Parent {
                of: Slot::Directory,
                into: Slot::Parent,
            },
            FdReaddir::Dot { dot, .. } => dot.request(),
            FdReaddir::DotDot { dotdot, .. } => dotdot.request(),
            FdReaddir::List { .. } => Request::ReadDir(Slot::Directory),
        }
    }

    fn resume(self, reply: Reply) -> Outcome<Self, ReadDir> {
        match self {
            FdReaddir::Locate { fd, skip, dot, dotdot } => match reply {
                Reply::Located(Ok(())) => Outcome::Continue(
                    FdReaddir::Parent { skip, dot, dotdot },
                ),
                Reply::Located(Err(error)) => Outcome::Done(Err(error)),
                _ => Outcome::Continue(FdReaddir::Locate { fd, skip, dot, dotdot }),
            },
            FdReaddir::Parent { skip, dot, dotdot } => match reply {
                Reply::Answer(has_parent) => {
                    let at = if has_parent {
                        Slot::Parent
                    } else {
                        Slot::Directory
                    };
                    Outcome::Continue(
                        FdReaddir::Dot { skip, dot, dotdot: DirentFromPath { at, ..dotdot } },
                    )
                },
                _ => Outcome::Continue(FdReaddir::Parent { skip, dot, dotdot }),
            },
            FdReaddir::Dot { skip, dot, dotdot } => match dot.resume(reply) {
                Outcome::Continue(dot) => Outcome::Continue(FdReaddir::Dot { skip, dot, dotdot }),
                Outcome::Done(Ok(first)) => Outcome::Continue(
                    FdReaddir::DotDot { skip, first, dotdot },
                ),
                Outcome::Done(Err(error)) => Outcome::Done(Err(error)),
            },
            FdReaddir::DotDot { skip, first, dotdot } => match dotdot.resume(reply) {
                Outcome::Continue(dotdot) => Outcome::Continue(
                    FdReaddir::DotDot { skip, first, dotdot },
                ),
                Outcome::Done(Ok(second)) => Outcome::Continue(
                    FdReaddir::List { skip, first, second },
                ),
                Outcome::Done(Err(error)) => Outcome::Done(Err(error)),
            },
            FdReaddir::List { skip, first, second } => match reply {
                Reply::Opened(Ok(stream)) => Outcome::Done(
                    Ok(
                        ReadDir {
                            stream,
                            dot: Some(first),
                            dotdot: Some(second),
                            next_cookie: FIRST_COOKIE,
                            to_skip: skip,
                        },
                    ),
                ),
                Reply::Opened(Err(error)) => Outcome::Done(Err(Error::Io(error))),
                _ => Outcome::Continue(FdReaddir::List { skip, first, second }),
            },
        }
    }
}

/// A listing of the directory `fd`, from after the entry with this cookie on,
/// before its first request.
pub open spec fn starts_readdir(call: FdReaddir, fd: Handle, cookie: DirCookie) -> bool {
    &&& call matches FdReaddir::Locate { fd: asked, skip, dot, dotdot }
    &&& asked == fd
    &&& skip == cookie
    &&& dot.at == Slot::Directory
    &&& dot.name@ == "."@
    &&& dot.cookie == DOT_COOKIE
    &&& dot.stage == DirentStage::Open
    &&& dotdot.name@ == ".."@
    &&& dotdot.cookie == DOTDOT_COOKIE
    &&& dotdot.stage == DirentStage::Open
}

/// Lists the directory `fd`, from after the entry with this cookie on. On every host
/// this ends after at most nine replies, with [`fd_readdir_result`].
pub fn fd_readdir(fd: Handle, cookie: DirCookie) -> (outcome: Outcome<FdReaddir, ReadDir>)
    ensures
        cookie > usize::MAX ==> outcome == Outcome::<FdReaddir, ReadDir>::Done(
            Err(Error::TryFromInt),
        ),
        cookie <= usize::MAX ==> {
            &&& outcome matches Outcome::Continue(call)
            &&& starts_readdir(call, fd, cookie)
            &&& forall|host: Host, n: nat| #[trigger]
                host::run(call, host, n, 9) == Some(
                    fd_readdir_result(
                        fd,
                        cookie as usize,
                        call->Locate_dot.name,
                        call->Locate_dotdot.name,
                        host,
                        n,
                    ),
                )
        },
{
    if cookie > usize::MAX as u64 {
        return Outcome::Done(Err(Error::TryFromInt));
    }
    let call = FdReaddir::Locate {
        fd,
        skip: cookie as usize,
        dot: dirent_from_path(Slot::Directory, ".", DOT_COOKIE),
        dotdot: dirent_from_path(Slot::Parent, "..", DOTDOT_COOKIE),
    };
    proof {
        assert forall|host: Host, n: nat| #[trigger]
            host::run(call, host, n, 9) == Some(
                fd_readdir_result(
                    fd,
                    cookie as usize,
                    call->Locate_dot.name,
                    call->Locate_dotdot.name,
                    host,
                    n,
                ),
            ) by {
            fd_readdir_ends(call, fd, cookie, host, n);
        }
    }
    Outcome::Continue(call)
}

/// What `fd_readdir` returns on a host.
pub open spec fn fd_readdir_result(
    fd: Handle,
    skip: usize,
    dot_name: String,
    dotdot_name: String,
    host: Host,
    n: nat,
) -> Result<ReadDir, Error> {
    let located = (host.file_path)(n, fd, Slot::Directory);
    let parent = if (host.has_parent)(n + 1, Slot::Directory, Slot::Parent) {
        Slot::Parent
    } else {
        Slot::Directory
    };
    let dot = dirent_from_path_result(Slot::Directory, dot_name, DOT_COOKIE, host, n + 2);
    let dotdot = dirent_from_path_result(parent, dotdot_name, DOTDOT_COOKIE, host, n + 5);
    let listed = (host.read_dir)(n + 8, Slot::Directory);
    if located is Err {
        Err(located->Err_0)
    } else if dot is Err {
        Err(dot->Err_0)
    } else if dotdot is Err {
        Err(dotdot->Err_0)
    } else if listed is Err {
        Err(Error::Io(listed->Err_0))
    } else {
        Ok(started(listed->Ok_0, dot->Ok_0, dotdot->Ok_0, skip))
    }
}

/// On every host `fd_readdir` ends after at most nine replies, with its result.
pub proof fn fd_readdir_ends(
    call: FdReaddir,
    fd: Handle,
    cookie: DirCookie,
    host: Host,
    n: nat,
)
    requires
        starts_readdir(call, fd, cookie),
    ensures
        host::run(call, host, n, 9) == Some(
            fd_readdir_result(
                fd,
                call->Locate_skip,
                call->Locate_dot.name,
                call->Locate_dotdot.name,
                host,
                n,
            ),
        ),
{
    reveal_with_fuel(host::run, 10);
}

/// An entry that the operating system lists.
#[derive(Debug, PartialEq, Eq)]
pub struct EntryInfo {
    pub name: String,
    pub ftype: FileType,
    pub ino: u64,
}

/// What the guest gets of an entry, or of one that could not be read: an entry
/// gets its cookie.
pub open spec fn numbered(item: Result<EntryInfo, Error>, cookie: DirCookie) -> Result<
    Dirent,
    Error,
> {
    match item {
        Ok(info) => Ok(
            Dirent { name: info.name, ftype: info.ftype, ino: info.ino, cookie },
        ),
        Err(error) => Err(error),
    }
}

/// The directory after a step of its listing, and the entry that came of it: none
/// at the end of the directory.
pub type Listed = (ReadDir, Option<Result<Dirent, Error>>);

/// What the next entry of a directory waits for.
#[derive(Debug, PartialEq, Eq)]
pub enum NextStage {
    /// Another entry.
    Entry,
    /// The name of the entry.
    Name,
    /// The type of the entry with this name.
    Type(String),
    /// The serial number of the entry with this name and type.
    Serial(String, FileType),
}

/// The next entry of a directory, under way.
#[derive(Debug, PartialEq, Eq)]
pub struct ReadDirNext {
    pub dir: ReadDir,
    pub stage: NextStage,
}

impl ReadDir {
    /// What an entry, or one that could not be read, leads to. It takes up a
    /// cookie either way, and either way it may be one of those to skip.
    pub open spec fn spec_entry(self, item: Result<EntryInfo, Error>) -> Outcome<
        ReadDirNext,
        Listed,
    > {
        let after = ReadDir { next_cookie: self.next_cookie.wrapping_add(1), ..self };
        if self.to_skip > 0 {
            Outcome::Continue(
                ReadDirNext {
                    dir: ReadDir { to_skip: (self.to_skip - 1) as usize, ..after },
                    stage: NextStage::Entry,
                },
            )
        } else {
            Outcome::Done(Ok((after, Some(numbered(item, self.next_cookie)))))
        }
    }

    fn entry(self, item: Result<EntryInfo, Error>) -> (outcome: Outcome<ReadDirNext, Listed>)
        ensures
            outcome == self.spec_entry(item),
    {
        let cookie = self.next_cookie;
        let mut dir = self;
        dir.next_cookie = cookie.wrapping_add(1);
        if dir.to_skip > 0 {
            dir.to_skip = dir.to_skip - 1;
            return Outcome::Continue(ReadDirNext { dir, stage: NextStage::Entry });
        }
        let item = match item {
            Ok(info) => Ok(
                Dirent { name: info.name, ftype: info.ftype, ino: info.ino, cookie },
            ),
            Err(error) => Err(error),
        };
        Outcome::Done(Ok((dir, Some(item))))
    }

    /// How the next entry begins: with `.` and `..`, as long as they have not had
    /// their turn.
    pub open spec fn spec_next(self) -> Outcome<ReadDirNext, Listed>
        decreases self.to_skip,
    {
        if self.dot is None && self.dotdot is None {
            Outcome::Continue(ReadDirNext { dir: self, stage: NextStage::Entry })
        } else {
            let (dirent, after) = if self.dot is Some {
                (self.dot->Some_0, ReadDir { dot: None, ..self })
            } else {
                (self.dotdot->Some_0, ReadDir { dotdot: None, ..self })
            };
            if self.to_skip > 0 {
                ReadDir { to_skip: (self.to_skip - 1) as usize, ..after }.spec_next()
            } else {
                Outcome::Done(Ok((after, Some(Ok(dirent)))))
            }
        }
    }

    /// The next entry of the directory.
    pub fn next(self) -> (outcome: Outcome<ReadDirNext, Listed>)
        ensures
            outcome == self.spec_next(),
    {
        let mut dir = self;
        reveal_with_fuel(ReadDir::spec_next, 3);
        if let Some(dot) = dir.dot {
            dir.dot = None;
            if dir.to_skip == 0 {
                return Outcome::Done(Ok((dir, Some(Ok(dot)))));
            }
            dir.to_skip = dir.to_skip - 1;
        }
        if let Some(dotdot) = dir.dotdot {
            dir.dotdot = None;
            if dir.to_skip == 0 {
                return Outcome::Done(Ok((dir, Some(Ok(dotdot)))));
            }
            dir.to_skip = dir.to_skip - 1;
        }
        Outcome::Continue(ReadDirNext { dir, stage: NextStage::Entry })
    }
}

impl Hostcall for ReadDirNext {
    type Output = Listed;

    open spec fn asks(self) -> Request<Seq<char>> {
        match self.stage {
            NextStage::Entry => Request::NextEntry(self.dir.stream),
            NextStage::Name => Request::EntryName(self.dir.stream),
            NextStage::Type(_) => Request::EntryType(self.dir.stream),
            NextStage::Serial(_, _) => Request::EntrySerialNumber(self.dir.stream),
        }
    }

    open spec fn after(self, reply: Reply) -> Outcome<Self, Listed> {
        match (self.stage, reply) {
            (NextStage::Entry, Reply::Entry(None)) => Outcome::Done(
                Ok((ReadDir { to_skip: 0, ..self.dir }, None)),
            ),
            (NextStage::Entry, Reply::Entry(Some(Ok(())))) => Outcome::Continue(
                ReadDirNext { stage: NextStage::Name, ..self },
            ),
            (NextStage::Entry, Reply::Entry(Some(Err(error)))) => self.dir.spec_entry(
                Err(Error::Io(error)),
            ),
            (NextStage::Name, Reply::Name(Ok(name))) => Outcome::Continue(
                ReadDirNext { stage: NextStage::Type(name), ..self },
            ),
            (NextStage::Name, Reply::Name(Err(error))) => self.dir.spec_entry(Err(error)),
            (NextStage::Type(name), Reply::Type(Ok(ftype))) => Outcome::Continue(
                ReadDirNext { stage: NextStage::Serial(name, ftype), ..self },
            ),
            (NextStage::Type(_), Reply::Type(Err(error))) => self.dir.spec_entry(
                Err(Error::Io(error)),
            ),
            (NextStage::Serial(name, ftype), Reply::Serial(Ok(ino))) => self.dir.spec_entry(
                Ok(EntryInfo { name, ftype, ino }),
            ),
            (NextStage::Serial(_, _), Reply::Serial(Err(error))) => self.dir.spec_entry(
                Err(Error::Io(error)),
            ),
            _ => Outcome::Continue(self),
        }
    }

    proof fn other_replies_change_nothing(self, reply: Reply) {
    }

    fn request(&self) -> Request<String> {
        match self.stage {
            NextStage::Entry => Request::NextEntry(self.dir.stream),
            NextStage::Name => Request::EntryName(self.dir.stream),
            NextStage::Type(_) => Request::EntryType(self.dir.stream),
            NextStage::Serial(_, _) => Request::EntrySerialNumber(self.dir.stream),
        }
    }

    fn resume(self, reply: Reply) -> Outcome<Self, Listed> {
        let mut dir = self.dir;
        match (self.stage, reply) {
            (NextStage::Entry, Reply::Entry(None)) => {
                dir.to_skip = 0;
                Outcome::Done(Ok((dir, None)))
            },
            (NextStage::Entry, Reply::Entry(Some(Ok(())))) => Outcome::Continue(
                ReadDirNext { dir, stage: NextStage::Name },
            ),
            (NextStage::Entry, Reply::Entry(Some(Err(error)))) => dir.entry(
                Err(Error::Io(error)),
            ),
            (NextStage::Name, Reply::Name(Ok(name))) => Outcome::Continue(
                ReadDirNext { dir, stage: NextStage::Type(name) },
            ),
            (NextStage::Name, Reply::Name(Err(error))) => dir.entry(Err(error)),
            (NextStage::Type(name), Reply::Type(Ok(ftype))) => Outcome::Continue(
                ReadDirNext { dir, stage: NextStage::Serial(name, ftype) },
            ),
            (NextStage::Type(_), Reply::Type(Err(error))) => dir.entry(Err(Error::Io(error))),
            (NextStage::Serial(name, ftype), Reply::Serial(Ok(ino))) => dir.entry(
                Ok(EntryInfo { name, ftype, ino }),
            ),
            (NextStage::Serial(_, _), Reply::Serial(Err(error))) => dir.entry(
                Err(Error::Io(error)),
            ),
            (stage, _) => Outcome::Continue(ReadDirNext { dir, stage }),
        }
    }
}

/// `dirent_from_path` describes what is at the path: it opens that, for reading and with
/// backup semantics, and gives its type and its serial number, under the name and the
/// cookie that it was given. The first thing that fails is the result.
pub proof fn a_directory_is_described_under_its_name(call: DirentFromPath, host: Host, n: nat)
    requires
        call.stage == DirentStage::Open,
    ensures
        ({
            let made = host::requests(call, host, n, 3);
            let result = host::run(call, host, n, 3);
            let options = made[0]->Open_options;
            &&& made[0] is Open
            &&& made[0]->Open_at == call.at
            &&& options.read
            &&& !options.write && !options.create && !options.create_new && !options.truncate
            &&& options.access_mode is None
            &&& options.custom_flags == Some(Flags { bits: 0x0200_0000 })
            &&& match (host.open_file)(n, call.at, options) {
                Err(error) => {
                    &&& made.len() == 1
                    &&& result == Some(Err::<Dirent, Error>(Error::Io(error)))
                },
                Ok(file) => {
                    &&& made[1] == Request::<Seq<char>>::Metadata(file)
                    &&& match (host.type_of)(n + 1, file) {
                        Err(error) => {
                            &&& made.len() == 2
                            &&& result == Some(Err::<Dirent, Error>(Error::Io(error)))
                        },
                        Ok(ftype) => {
                            &&& made.len() == 3
                            &&& made[2] == Request::<Seq<char>>::SerialNumber(file)
                            &&& match (host.serial_number)(n + 2, file) {
                                Err(error) => result == Some(
                                    Err::<Dirent, Error>(Error::Io(error)),
                                ),
                                Ok(ino) => {
                                    let dirent = result->Some_0->Ok_0;
                                    &&& result is Some && result->Some_0 is Ok
                                    &&& dirent.name == call.name
                                    &&& dirent.ftype == ftype
                                    &&& dirent.ino == ino
                                    &&& dirent.cookie == call.cookie
                                },
                            }
                        },
                    }
                },
            }
        }),
{
    reveal_with_fuel(host::run, 4);
    reveal_with_fuel(host::requests, 4);
}

/// `fd_readdir` can list a directory exactly if the last thing that it asked for is the
/// list of the directory's entries and the host has one; the entries come from that list.
/// If it fails, it is with the failure that was the last reply: nothing is asked for after
/// a failure.
pub proof fn a_listing_fails_as_the_last_reply_does(
    call: FdReaddir,
    host: Host,
    n: nat,
    limit: nat,
)
    requires
        limit > 0,
    ensures
        ({
            let made = host::requests(call, host, n, limit);
            let reply = host::last_reply(call, host, n, limit);
            let result = host::run(call, host, n, limit);
            let can_list = {
                &&& made.last() == Request::<Seq<char>>::ReadDir(Slot::Directory)
                &&& reply matches Reply::Opened(Ok(_))
            };
            &&& made.len() > 0
            &&& (result matches Some(Ok(_))) <==> can_list
            &&& can_list ==> result->Some_0->Ok_0.stream == reply->Opened_0->Ok_0
            &&& match reply {
                Reply::Located(Err(error)) => result == Some(Err::<ReadDir, Error>(error)),
                Reply::Opened(Err(error)) => result == Some(
                    Err::<ReadDir, Error>(Error::Io(error)),
                ),
                Reply::Type(Err(error)) => result == Some(
                    Err::<ReadDir, Error>(Error::Io(error)),
                ),
                Reply::Serial(Err(error)) => result == Some(
                    Err::<ReadDir, Error>(Error::Io(error)),
                ),
                _ => !(result matches Some(Err(_))),
            }
            &&& forall|i: int|
                0 <= i < made.len() - 1 ==> match host.answer((n + i) as nat, #[trigger] made[i]) {
                    Reply::Located(located) => located is Ok,
                    Reply::Opened(opened) => opened is Ok,
                    Reply::Type(ftype) => ftype is Ok,
                    Reply::Serial(ino) => ino is Ok,
                    _ => true,
                }
        }),
    decreases limit,
{
    reveal_with_fuel(host::run, 2);
    host::the_last_reply_comes_last(call, host, n, limit);
    if limit > 1 {
        match call.after(host.answer(n, call.asks())) {
            Outcome::Continue(next) => {
                a_listing_fails_as_the_last_reply_does(next, host, n + 1, (limit - 1) as nat);
                let made = host::requests(call, host, n, limit);
                let rest = host::requests(next, host, n + 1, (limit - 1) as nat);
                assert forall|i: int| 0 <= i < made.len() - 1 implies match host.answer(
                    (n + i) as nat,
                    #[trigger] made[i],
                ) {
                    Reply::Located(located) => located is Ok,
                    Reply::Opened(opened) => opened is Ok,
                    Reply::Type(ftype) => ftype is Ok,
                    Reply::Serial(ino) => ino is Ok,
                    _ => true,
                } by {
                    if i > 0 {
                        assert(made[i] == rest[i - 1]);
                        assert((n + 1) + (i - 1) == n + i);
                    }
                }
            },
            Outcome::Done(_) => {},
        }
    }
}

/// Where nothing fails, the directory that `fd_readdir` gives is about to list `.` and
/// `..` before its own entries. `.` is the directory itself, with cookie 1; `..` is the
/// directory that it is in, or itself if there is none, with cookie 2. Each has the type
/// and the serial number that the host reads of it. As many entries are to be skipped as
/// the cookie says, and the first one that the operating system lists has cookie 3.
pub proof fn dot_is_the_directory_and_dotdot_the_one_it_is_in(
    call: FdReaddir,
    fd: Handle,
    cookie: DirCookie,
    host: Host,
    n: nat,
)
    requires
        starts_readdir(call, fd, cookie),
    ensures
        ({
            let result = host::run(call, host, n, 9);
            let dir = result->Some_0->Ok_0;
            let dot = dir.dot->Some_0;
            let dotdot = dir.dotdot->Some_0;
            let parent = if (host.has_parent)(n + 1, Slot::Directory, Slot::Parent) {
                Slot::Parent
            } else {
                Slot::Directory
            };
            let options = OpenSpec {
                read: true,
                write: false,
                create: false,
                create_new: false,
                truncate: false,
                access_mode: None,
                custom_flags: Some(Flags { bits: 0x0200_0000 }),
            };
            let itself = (host.open_file)(n + 2, Slot::Directory, options);
            let outer = (host.open_file)(n + 5, parent, options);
            let nothing_fails = {
                &&& (host.file_path)(n, fd, Slot::Directory) is Ok
                &&& itself is Ok
                &&& (host.type_of)(n + 3, itself->Ok_0) is Ok
                &&& (host.serial_number)(n + 4, itself->Ok_0) is Ok
                &&& outer is Ok
                &&& (host.type_of)(n + 6, outer->Ok_0) is Ok
                &&& (host.serial_number)(n + 7, outer->Ok_0) is Ok
                &&& (host.read_dir)(n + 8, Slot::Directory) is Ok
            };
            &&& nothing_fails <==> (result matches Some(Ok(_)))
            &&& nothing_fails ==> {
                &&& dir.dot is Some
                &&& dot.name@ == "."@
                &&& dot.cookie == 1
                &&& dot.ftype == (host.type_of)(n + 3, itself->Ok_0)->Ok_0
                &&& dot.ino == (host.serial_number)(n + 4, itself->Ok_0)->Ok_0
                &&& dir.dotdot is Some
                &&& dotdot.name@ == ".."@
                &&& dotdot.cookie == 2
                &&& dotdot.ftype == (host.type_of)(n + 6, outer->Ok_0)->Ok_0
                &&& dotdot.ino == (host.serial_number)(n + 7, outer->Ok_0)->Ok_0
                &&& dir.stream == (host.read_dir)(n + 8, Slot::Directory)->Ok_0
                &&& dir.to_skip == cookie
                &&& dir.next_cookie == 3
            }
        }),
{
    fd_readdir_ends(call, fd, cookie, host, n);
}

/// Where nothing fails, `fd_readdir` locates the directory and the one that it is in,
/// describes the first, then the second, and asks for the list last.
pub proof fn both_directories_are_described_before_the_list(
    call: FdReaddir,
    fd: Handle,
    cookie: DirCookie,
    host: Host,
    n: nat,
)
    requires
        starts_readdir(call, fd, cookie),
        host::run(call, host, n, 9) matches Some(Ok(_)),
    ensures
        ({
            let made = host::requests(call, host, n, 9);
            let parent = if (host.has_parent)(n + 1, Slot::Directory, Slot::Parent) {
                Slot::Parent
            } else {
                Slot::Directory
            };
            &&& made.len() == 9
            &&& made[0] == Request::<Seq<char>>::FilePath { file: fd, into: Slot::Directory }
            &&& made[1] == Request::<Seq<char>>::Parent {
                of: Slot::Directory,
                into: Slot::Parent,
            }
            &&& made[2] is Open && made[2]->Open_at == Slot::Directory
            &&& made[3] is Metadata
            &&& made[4] is SerialNumber
            &&& made[5] is Open && made[5]->Open_at == parent
            &&& made[6] is Metadata
            &&& made[7] is SerialNumber
            &&& made[8] == Request::<Seq<char>>::ReadDir(Slot::Directory)
        }),
{
    reveal_with_fuel(host::run, 10);
    reveal_with_fuel(host::requests, 10);
}

/// Once `.` and `..` have had their turn and nothing is left to skip, the next entry of a
/// directory is what the host says of the one that its list comes to: the name, the type
/// and the serial number are the host's, and the cookie is the next in turn. A failure to
/// read one of them stands in the place of the entry. At the end of the list there is
/// none.
pub proof fn an_entry_is_what_the_host_says_of_it(dir: ReadDir, host: Host, n: nat)
    requires
        dir.dot is None,
        dir.dotdot is None,
        dir.to_skip == 0,
    ensures
        ({
            let result = host::run_from(dir.spec_next(), host, n, 4);
            let after = result->Some_0->Ok_0.0;
            let given = result->Some_0->Ok_0.1;
            let stream = dir.stream;
            &&& result is Some && result->Some_0 is Ok
            &&& after.stream == stream
            &&& after.dot is None
            &&& after.dotdot is None
            &&& after.to_skip == 0
            &&& match (host.next_entry)(n, stream) {
                None => given is None && after.next_cookie == dir.next_cookie,
                Some(moved) => {
                    let name = (host.entry_name)(n + 1, stream);
                    let ftype = (host.entry_type)(n + 2, stream);
                    let ino = (host.entry_serial_number)(n + 3, stream);
                    let dirent = given->Some_0->Ok_0;
                    &&& given is Some
                    &&& dir.next_cookie < u64::MAX ==> after.next_cookie == dir.next_cookie + 1
                    &&& moved is Err ==> given == Some(
                        Err::<Dirent, Error>(Error::Io(moved->Err_0)),
                    )
                    &&& moved is Ok && name is Err ==> given == Some(
                        Err::<Dirent, Error>(name->Err_0),
                    )
                    &&& moved is Ok && name is Ok && ftype is Err ==> given == Some(
                        Err::<Dirent, Error>(Error::Io(ftype->Err_0)),
                    )
                    &&& moved is Ok && name is Ok && ftype is Ok && ino is Err ==> given == Some(
                        Err::<Dirent, Error>(Error::Io(ino->Err_0)),
                    )
                    &&& moved is Ok && name is Ok && ftype is Ok && ino is Ok ==> {
                        &&& given->Some_0 is Ok
                        &&& dirent.name == name->Ok_0
                        &&& dirent.ftype == ftype->Ok_0
                        &&& dirent.ino == ino->Ok_0
                        &&& dirent.cookie == dir.next_cookie
                    }
                },
            }
        }),
{
    reveal_with_fuel(host::run, 5);
}

/// `.` has its turn first and `..` second, each once and without asking the host. One that
/// is to be skipped is passed over, and one fewer is to be skipped then.
pub proof fn dot_has_its_turn_before_dotdot(dir: ReadDir)
    requires
        dir.dot is Some || dir.dotdot is Some,
    ensures
        ({
            let first = if dir.dot is Some {
                dir.dot->Some_0
            } else {
                dir.dotdot->Some_0
            };
            let others = if dir.dot is Some {
                ReadDir { dot: None, ..dir }
            } else {
                ReadDir { dotdot: None, ..dir }
            };
            let fewer = ReadDir { to_skip: (dir.to_skip - 1) as usize, ..others };
            let given = Outcome::<ReadDirNext, Listed>::Done(Ok((others, Some(Ok(first)))));
            &&& dir.to_skip == 0 ==> dir.spec_next() == given
            &&& dir.to_skip > 0 ==> dir.spec_next() == fewer.spec_next()
        }),
{
    reveal_with_fuel(ReadDir::spec_next, 2);
}

/// An entry that is to be skipped is read like any other, whether or not that fails. It
/// takes up its cookie, one fewer is to be skipped then, and nothing else comes of it. If
/// there is no entry left, there is none to give.
pub proof fn a_skipped_entry_takes_up_its_cookie(dir: ReadDir, host: Host, n: nat, limit: nat)
    requires
        dir.dot is None,
        dir.dotdot is None,
        dir.to_skip > 0,
        dir.next_cookie < u64::MAX,
    ensures
        ({
            let stream = dir.stream;
            let cost: nat = match (host.next_entry)(n, stream) {
                Some(Ok(())) => if (host.entry_name)(n + 1, stream) is Err {
                    2
                } else if (host.entry_type)(n + 2, stream) is Err {
                    3
                } else {
                    4
                },
                _ => 1,
            };
            let after = ReadDir {
                to_skip: (dir.to_skip - 1) as usize,
                next_cookie: (dir.next_cookie + 1) as DirCookie,
                ..dir
            };
            let result = host::run_from(dir.spec_next(), host, n, cost + limit);
            if (host.next_entry)(n, stream) is None {
                &&& result is Some && result->Some_0 is Ok
                &&& result->Some_0->Ok_0.1 is None
            } else {
                result == host::run_from(after.spec_next(), host, n + cost, limit)
            }
        }),
{
    reveal_with_fuel(host::run, 5);
}

/// Every request of `dirent_from_path` finds its path and its handle ready, if the
/// path is in its slot.
pub proof fn dirent_from_path_finds_ready(
    call: DirentFromPath,
    host: Host,
    n: nat,
    ready: Ready,
)
    requires
        call.stage == DirentStage::Open,
        ready.slots.contains(call.at),
    ensures
        host::finds_ready(call, host, n, 3, ready),
{
    reveal_with_fuel(host::finds_ready, 4);
}

/// Every request of `fd_readdir` finds its paths and its handle ready: `..` is
/// looked for where the parent was put, or where the directory is if it has none.
pub proof fn fd_readdir_finds_ready(
    call: FdReaddir,
    fd: Handle,
    cookie: DirCookie,
    host: Host,
    n: nat,
)
    requires
        starts_readdir(call, fd, cookie),
    ensures
        host::finds_ready(call, host, n, 9, host::ready_with(set![fd])),
{
    reveal_with_fuel(host::finds_ready, 10);
}

/// Every request for the next entry, however many there are, finds its handle
/// ready: it is that of the directory stream.
pub proof fn next_entry_finds_ready(
    call: ReadDirNext,
    host: Host,
    n: nat,
    limit: nat,
    ready: Ready,
)
    requires
        ready.given.contains(call.dir.stream),
    ensures
        host::finds_ready(call, host, n, limit, ready),
    decreases limit,
{
    if limit > 0 {
        let reply = host.answer(n, call.asks());
        match call.after(reply) {
            Outcome::Continue(next) => {
                next_entry_finds_ready(
                    next,
                    host,
                    n + 1,
                    (limit - 1) as nat,
                    ready.after(call.asks(), reply),
                );
            },
            Outcome::Done(_) => {},
        }
    }
}

} // verus!
