use wasi_winfs::error::{Error, OsError, WasiError, WinError};
use wasi_winfs::host::{Hostcall, OpenSpec, Outcome, Reply, Request, Slot};
use wasi_winfs::readdir::{dirent_from_path, fd_readdir, ReadDir};
use wasi_winfs::rights::Flags;
use wasi_winfs::wasi::{Dirent, FileType};

/// Runs a hostcall on a host with a script of replies. Returns the requests that
/// were made and the result, and checks that the script was used up.
fn drive<C: Hostcall>(
    start: Outcome<C, C::Output>,
    script: Vec<Reply>,
) -> (Vec<Request<String>>, Result<C::Output, Error>) {
    let mut made = Vec::new();
    let mut replies = script.into_iter();
    let mut outcome = start;
    loop {
        match outcome {
            Outcome::Done(result) => {
                assert!(replies.next().is_none(), "replies are left over");
                return (made, result);
            }
            Outcome::Continue(call) => {
                made.push(call.request());
                outcome = call.resume(replies.next().expect("another request"));
            }
        }
    }
}

const BROKEN: OsError = OsError { raw_os_error: Some(6) };

fn directory(at: Slot) -> Request<String> {
    Request::Open {
        at,
        options: OpenSpec {
            read: true,
            write: false,
            create: false,
            create_new: false,
            truncate: false,
            access_mode: None,
            custom_flags: Some(Flags { bits: 0x0200_0000 }),
        },
    }
}

fn described(file: u64, ino: u64) -> Vec<Reply> {
    vec![
        Reply::Opened(Ok(file)),
        Reply::Type(Ok(FileType::Directory)),
        Reply::Serial(Ok(ino)),
    ]
}

fn start(cookie: u64) -> ReadDir {
    let mut script = vec![Reply::Located(Ok(())), Reply::Answer(true)];
    script.extend(described(21, 100));
    script.extend(described(22, 200));
    script.push(Reply::Opened(Ok(50)));
    drive(fd_readdir(20, cookie), script).1.unwrap()
}

fn entry(name: &str, ino: u64) -> Vec<Reply> {
    vec![
        Reply::Entry(Some(Ok(()))),
        Reply::Name(Ok(name.to_string())),
        Reply::Type(Ok(FileType::RegularFile)),
        Reply::Serial(Ok(ino)),
    ]
}

/// The name and cookie of each entry that a listing gives, if the operating
/// system's listing is this.
fn list(cookie: u64, entries: Vec<Vec<Reply>>) -> Vec<Result<(String, u64), Error>> {
    let mut dir = start(cookie);
    let mut replies = entries.into_iter().flatten().chain([Reply::Entry(None)]);
    let mut all = Vec::new();
    loop {
        let mut outcome = dir.next();
        let (after, item) = loop {
            match outcome {
                Outcome::Done(result) => break result.unwrap(),
                Outcome::Continue(call) => outcome = call.resume(replies.next().unwrap()),
            }
        };
        dir = after;
        match item {
            Some(item) => all.push(item.map(|dirent| (dirent.name, dirent.cookie))),
            None => return all,
        }
    }
}

fn named(name: &str, cookie: u64) -> Result<(String, u64), Error> {
    Ok((name.to_string(), cookie))
}

#[test]
fn a_directory_is_described() {
    let (made, result) =
        drive(Outcome::Continue(dirent_from_path(Slot::Parent, "..", 2)), described(4, 77));
    assert_eq!(
        result,
        Ok(Dirent {
            name: "..".to_string(),
            ftype: FileType::Directory,
            ino: 77,
            cookie: 2,
        })
    );
    assert_eq!(
        made,
        vec![directory(Slot::Parent), Request::Metadata(4), Request::SerialNumber(4)]
    );
    let call = || Outcome::Continue(dirent_from_path(Slot::Parent, "..", 2));
    let io = Err(Error::Io(BROKEN));
    assert_eq!(drive(call(), vec![Reply::Opened(Err(BROKEN))]).1, io);
    let script = vec![Reply::Opened(Ok(4)), Reply::Type(Err(BROKEN))];
    assert_eq!(drive(call(), script).1, io);
    let script = vec![
        Reply::Opened(Ok(4)),
        Reply::Type(Ok(FileType::Directory)),
        Reply::Serial(Err(BROKEN)),
    ];
    assert_eq!(drive(call(), script).1, io);
}

#[test]
fn a_listing_begins_with_the_two_made_up_entries() {
    let mut script = vec![Reply::Located(Ok(())), Reply::Answer(false)];
    script.extend(described(21, 100));
    script.extend(described(22, 100));
    script.push(Reply::Opened(Ok(50)));
    let (made, result) = drive(fd_readdir(20, 0), script);
    assert_eq!(
        made,
        vec![
            Request::FilePath { file: 20, into: Slot::Directory },
            Request::Parent { of: Slot::Directory, into: Slot::Parent },
            directory(Slot::Directory),
            Request::Metadata(21),
            Request::SerialNumber(21),
            directory(Slot::Directory),
            Request::Metadata(22),
            Request::SerialNumber(22),
            Request::ReadDir(Slot::Directory),
        ]
    );
    let dir = result.unwrap();
    assert_eq!((dir.stream, dir.next_cookie, dir.to_skip), (50, 3, 0));
    let dot = dir.dot.unwrap();
    assert_eq!((dot.name.as_str(), dot.cookie, dot.ino), (".", 1, 100));
    let dotdot = dir.dotdot.unwrap();
    assert_eq!((dotdot.name.as_str(), dotdot.cookie), ("..", 2));
}

#[test]
fn the_parent_is_described_where_there_is_one() {
    let mut script = vec![Reply::Located(Ok(())), Reply::Answer(true)];
    script.extend(described(21, 100));
    script.push(Reply::Opened(Err(BROKEN)));
    let (made, result) = drive(fd_readdir(20, 0), script);
    assert_eq!(made[5], directory(Slot::Parent));
    assert_eq!(result, Err(Error::Io(BROKEN)));
}

#[test]
fn failures_to_list() {
    let error = Error::Winx(WinError { code: 6 });
    let (_, result) = drive(fd_readdir(20, 0), vec![Reply::Located(Err(error))]);
    assert_eq!(result, Err(error));
    let mut script = vec![Reply::Located(Ok(())), Reply::Answer(true)];
    script.extend(described(21, 100));
    script.extend(described(22, 100));
    script.push(Reply::Opened(Err(BROKEN)));
    assert_eq!(drive(fd_readdir(20, 99), script).1, Err(Error::Io(BROKEN)));
}

#[test]
fn a_listing_gives_everything_in_order() {
    assert_eq!(
        list(0, vec![entry("a", 1), entry("b", 2)]),
        vec![named(".", 1), named("..", 2), named("a", 3), named("b", 4)]
    );
    assert_eq!(list(0, vec![]), vec![named(".", 1), named("..", 2)]);
}

#[test]
fn a_listing_resumes_after_each_cookie() {
    let entries = || vec![entry("a", 1), entry("b", 2), entry("c", 3)];
    let all = list(0, entries());
    for cookie in 0..=6usize {
        let left: Vec<_> = all.iter().skip(cookie).cloned().collect();
        assert_eq!(list(cookie as u64, entries()), left);
    }
    assert_eq!(list(usize::MAX as u64, entries()), vec![]);
}

#[test]
fn entries_that_cannot_be_read_keep_their_cookie() {
    let entries = || {
        vec![
            vec![Reply::Entry(Some(Err(BROKEN)))],
            vec![Reply::Entry(Some(Ok(()))), Reply::Name(Err(Error::Wasi(WasiError::EILSEQ)))],
            vec![
                Reply::Entry(Some(Ok(()))),
                Reply::Name(Ok("x".to_string())),
                Reply::Type(Err(BROKEN)),
            ],
            vec![
                Reply::Entry(Some(Ok(()))),
                Reply::Name(Ok("y".to_string())),
                Reply::Type(Ok(FileType::Symlink)),
                Reply::Serial(Err(BROKEN)),
            ],
            entry("z", 9),
        ]
    };
    let io = Err(Error::Io(BROKEN));
    assert_eq!(
        list(2, entries()),
        vec![io.clone(), Err(Error::Wasi(WasiError::EILSEQ)), io.clone(), io, named("z", 7)]
    );
    assert_eq!(list(6, entries()), vec![named("z", 7)]);
}

#[test]
fn after_the_end_nothing_is_skipped() {
    let dir = start(9);
    let call = match dir.next() {
        Outcome::Continue(call) => call,
        Outcome::Done(_) => panic!("the entry should have been skipped"),
    };
    assert_eq!(call.request(), Request::NextEntry(50));
    match call.resume(Reply::Entry(None)) {
        Outcome::Done(Ok((dir, None))) => assert_eq!(dir.to_skip, 0),
        _ => panic!("the end should have been reached"),
    }
}
