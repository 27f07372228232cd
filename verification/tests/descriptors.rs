use wasi_winfs::advice::fd_advise;
use wasi_winfs::error::{Error, OsError, WasiError, WinError};
use wasi_winfs::fdstat::{fd_fdstat_get, fd_fdstat_set_flags, fdflags_from_access, new_access};
use wasi_winfs::host::{Hostcall, OpenSpec, Outcome, Relative, Reply, Request, Slot};
use wasi_winfs::path::PathGet;
use wasi_winfs::readlink::{copy_link_text, finish_readlink, path_readlink};
use wasi_winfs::rights::{
    file_access_mode_from_fdflags, file_flags_from_fdflags, AccessMode, FileModeInformation,
    Flags, FILE_APPEND_DATA, FILE_READ_DATA, FILE_WRITE_DATA,
};
use wasi_winfs::stat::{fd_filestat_get, path_filestat_get, path_filestat_set_times};
use wasi_winfs::transfer::{fd_pread, fd_pwrite};
use wasi_winfs::wasi::{
    FileType, Filestat, __WASI_FDFLAGS_APPEND, __WASI_FDFLAGS_DSYNC, __WASI_FDFLAGS_SYNC,
};

/// Runs a hostcall on a host with a script of replies. Returns the requests that
/// were made and the result, and checks that the script was used up.
fn drive<C: Hostcall>(
    start: Outcome<C, C::Output>,
    script: Vec<Reply>,
) -> (Vec<Request<String>>, Result<C::Output, Error>) {
    let mut made = Vec::new();
    let mut replies = script.into_iter();
    let mut outcome = start;
    loop {
        match outcome {
            Outcome::Done(result) => {
                assert!(replies.next().is_none(), "replies are left over");
                return (made, result);
            }
            Outcome::Continue(call) => {
                made.push(call.request());
                outcome = call.resume(replies.next().expect("another request"));
            }
        }
    }
}

const BROKEN: OsError = OsError { raw_os_error: Some(6) };

fn resolved() -> PathGet {
    PathGet { dirfd: 5, path: "f".to_string() }
}

fn located() -> Reply {
    Reply::Located(Ok(()))
}

fn joined() -> Request<String> {
    Request::Concatenate { dirfd: 5, path: "f".to_string(), into: Slot::Target }
}

fn mode(bits: u32) -> FileModeInformation {
    FileModeInformation { bits }
}

#[test]
fn known_advice_is_taken() {
    for advice in 0..=5u8 {
        assert_eq!(fd_advise(1, advice, 0, 0), Ok(()));
    }
    for advice in [6u8, 7, 255] {
        assert_eq!(fd_advise(1, advice, 0, 0), Err(Error::Wasi(WasiError::EINVAL)));
    }
}

#[test]
fn flags_of_an_open_file() {
    let of = |access: u32, bits: u32| fdflags_from_access(AccessMode { bits: access }, mode(bits));
    assert_eq!(of(FILE_READ_DATA, 0), 0);
    assert_eq!(of(FILE_WRITE_DATA | FILE_APPEND_DATA, 0), 0);
    assert_eq!(of(FILE_APPEND_DATA, 0), 0x1);
    assert_eq!(of(FILE_WRITE_DATA, 0x2), 0x10);
    assert_eq!(of(FILE_APPEND_DATA, 0x2), 0x11);
    assert_eq!(of(FILE_APPEND_DATA, 0x20), 0x1);
}

#[test]
fn flags_are_queried() {
    let (made, result) = drive(
        Outcome::Continue(fd_fdstat_get(9)),
        vec![Reply::Bits(Ok(0x120114)), Reply::Bits(Ok(0x22))],
    );
    assert_eq!(result, Ok(__WASI_FDFLAGS_APPEND | __WASI_FDFLAGS_SYNC));
    assert_eq!(made, vec![Request::QueryAccess(9), Request::QueryMode(9)]);
    let error = Error::Winx(WinError { code: 6 });
    let (_, result) = drive(Outcome::Continue(fd_fdstat_get(9)), vec![Reply::Bits(Err(error))]);
    assert_eq!(result, Err(error));
    let (_, result) = drive(
        Outcome::Continue(fd_fdstat_get(9)),
        vec![Reply::Bits(Ok(0)), Reply::Bits(Err(error))],
    );
    assert_eq!(result, Err(error));
}

#[test]
fn append_comes_back_as_it_was_set() {
    for fdflags in 0..32u16 {
        for (read, write) in [(false, false), (true, false), (false, true), (true, true)] {
            let access = file_access_mode_from_fdflags(fdflags, read, write);
            let reported = fdflags_from_access(access, mode(0));
            assert_eq!(reported, fdflags & __WASI_FDFLAGS_APPEND);
        }
    }
}

#[test]
fn every_kind_of_synchronous_writes_comes_back_as_sync() {
    let access = AccessMode { bits: 0x12019f };
    for fdflags in 0..32u16 {
        let through = file_flags_from_fdflags(fdflags).bits & 0x8000_0000 != 0;
        let reported = fdflags_from_access(access, mode(if through { 0x2 } else { 0 }));
        let wanted = fdflags & (0x2 | 0x8 | 0x10) != 0;
        assert_eq!(reported, if wanted { __WASI_FDFLAGS_SYNC } else { 0 });
    }
}

#[test]
fn setting_flags_reopens_the_file() {
    let (made, result) = drive(
        Outcome::Continue(fd_fdstat_set_flags(9, __WASI_FDFLAGS_APPEND | __WASI_FDFLAGS_DSYNC)),
        vec![Reply::Bits(Ok(0x12019f)), Reply::Reopened(Ok(10))],
    );
    assert_eq!(result, Ok(Some(10)));
    assert_eq!(
        made,
        vec![
            Request::QueryAccess(9),
            Request::Reopen {
                file: 9,
                access_mode: AccessMode { bits: 0x12019d },
                flags: Flags { bits: 0x8200_0000 },
            },
        ]
    );
    let error = Error::Winx(WinError { code: 5 });
    let (_, result) = drive(
        Outcome::Continue(fd_fdstat_set_flags(9, 0)),
        vec![Reply::Bits(Ok(0x12019f)), Reply::Reopened(Err(error))],
    );
    assert_eq!(result, Err(error));
    let (_, result) =
        drive(Outcome::Continue(fd_fdstat_set_flags(9, 0)), vec![Reply::Bits(Err(error))]);
    assert_eq!(result, Err(error));
}

#[test]
fn append_can_be_set_and_taken_back() {
    let writable = AccessMode { bits: 0x12019f };
    let appending = new_access(writable, __WASI_FDFLAGS_APPEND);
    assert_eq!(appending, AccessMode { bits: 0x12019d });
    assert_eq!(new_access(appending, 0), writable);
    let readable = AccessMode { bits: 0x120089 };
    assert_eq!(new_access(readable, 0), readable);
}

#[test]
fn reading_at_an_offset_puts_the_cursor_back() {
    let (made, result) = drive(
        Outcome::Continue(fd_pread(3, 100)),
        vec![Reply::Position(Ok(42)), Reply::Moved(Ok(16)), Reply::Position(Ok(42))],
    );
    assert_eq!(result, Ok(16));
    assert_eq!(
        made,
        vec![
            Request::SeekCurrent(3),
            Request::SeekRead { file: 3, offset: 100 },
            Request::SeekStart { file: 3, offset: 42 },
        ]
    );
}

#[test]
fn writing_at_an_offset_puts_the_cursor_back() {
    let (made, result) = drive(
        Outcome::Continue(fd_pwrite(3, 7)),
        vec![Reply::Position(Ok(0)), Reply::Moved(Ok(0)), Reply::Position(Ok(0))],
    );
    assert_eq!(result, Ok(0));
    assert_eq!(made[1], Request::SeekWrite { file: 3, offset: 7 });
    assert_eq!(made[2], Request::SeekStart { file: 3, offset: 0 });
}

#[test]
fn failures_of_a_transfer() {
    let io = Err(Error::Io(BROKEN));
    let failed = || Reply::Position(Err(BROKEN));
    assert_eq!(drive(Outcome::Continue(fd_pread(3, 7)), vec![failed()]).1, io);
    let script = vec![Reply::Position(Ok(1)), Reply::Moved(Err(BROKEN))];
    assert_eq!(drive(Outcome::Continue(fd_pread(3, 7)), script).1, io);
    let script = vec![Reply::Position(Ok(1)), Reply::Moved(Ok(5)), failed()];
    assert_eq!(drive(Outcome::Continue(fd_pwrite(3, 7)), script).1, io);
}

fn filestat() -> Filestat {
    Filestat {
        dev: 1,
        ino: 2,
        filetype: FileType::RegularFile,
        nlink: 1,
        size: 10,
        atim: 3,
        mtim: 4,
        ctim: 5,
    }
}

#[test]
fn attributes_are_read() {
    let (made, result) = drive(
        Outcome::Continue(path_filestat_get(resolved(), 0)),
        vec![located(), Reply::Opened(Ok(2)), Reply::Stat(Ok(filestat()))],
    );
    assert_eq!(result, Ok(filestat()));
    assert_eq!(
        made,
        vec![
            joined(),
            Request::Open {
                at: Slot::Target,
                options: OpenSpec {
                    read: true,
                    write: false,
                    create: false,
                    create_new: false,
                    truncate: false,
                    access_mode: None,
                    custom_flags: None,
                },
            },
            Request::Filestat(2),
        ]
    );
    let (_, result) = drive(
        Outcome::Continue(path_filestat_get(resolved(), 1)),
        vec![located(), Reply::Opened(Err(BROKEN))],
    );
    assert_eq!(result, Err(Error::Io(BROKEN)));
    let (made, result) = drive(
        Outcome::Continue(fd_filestat_get(8)),
        vec![Reply::Stat(Err(Error::Io(BROKEN)))],
    );
    assert_eq!(made, vec![Request::Filestat(8)]);
    assert_eq!(result, Err(Error::Io(BROKEN)));
}

#[test]
fn times_are_set() {
    let (made, result) = drive(
        Outcome::Continue(path_filestat_set_times(resolved(), 0, 11, 12, 3)),
        vec![located(), Reply::Opened(Ok(2)), Reply::Applied(Ok(()))],
    );
    assert_eq!(result, Ok(()));
    assert_eq!(
        made[1..],
        [
            Request::Open {
                at: Slot::Target,
                options: OpenSpec {
                    read: false,
                    write: false,
                    create: false,
                    create_new: false,
                    truncate: false,
                    access_mode: Some(AccessMode { bits: 0x100 }),
                    custom_flags: None,
                },
            },
            Request::SetTimes { file: 2, atim: 11, mtim: 12, fst_flags: 3 },
        ]
    );
    let (_, result) = drive(
        Outcome::Continue(path_filestat_set_times(resolved(), 0, 11, 12, 3)),
        vec![located(), Reply::Opened(Ok(2)), Reply::Applied(Err(Error::TryFromInt))],
    );
    assert_eq!(result, Err(Error::TryFromInt));
}

fn readlink(script: Vec<Reply>) -> (Vec<Request<String>>, Result<String, Error>) {
    drive(Outcome::Continue(path_readlink(resolved())), script)
}

#[test]
fn a_link_is_read() {
    let (made, result) = readlink(vec![
        located(),
        Reply::Finished(Ok(())),
        located(),
        Reply::Stripped(Relative::Text("a/b".to_string())),
    ]);
    assert_eq!(result, Ok("a/b".to_string()));
    assert_eq!(
        made,
        vec![
            joined(),
            Request::ReadLink { link: Slot::Target, into: Slot::Link },
            Request::FilePath { file: 5, into: Slot::Directory },
            Request::StripPrefix { of: Slot::Link, base: Slot::Directory },
        ]
    );
}

#[test]
fn failures_to_read_a_link() {
    let read = || vec![located(), Reply::Finished(Ok(())), located()];
    let mut script = read();
    script.push(Reply::Stripped(Relative::Outside));
    assert_eq!(readlink(script).1, Err(Error::Wasi(WasiError::ENOTCAPABLE)));
    let mut script = read();
    script.push(Reply::Stripped(Relative::NotUnicode));
    assert_eq!(readlink(script).1, Err(Error::Wasi(WasiError::EILSEQ)));
    let script = vec![located(), Reply::Finished(Err(BROKEN))];
    assert_eq!(readlink(script).1, Err(Error::Io(BROKEN)));
    let winx = Error::Winx(WinError { code: 6 });
    let script = vec![located(), Reply::Finished(Ok(())), Reply::Located(Err(winx))];
    assert_eq!(readlink(script).1, Err(winx));
}

#[test]
fn link_text_is_copied_as_far_as_it_fits() {
    let mut buf = [9u8; 5];
    assert_eq!(copy_link_text("abc", &mut buf), 3);
    assert_eq!(buf, [b'a', b'b', b'c', 9, 9]);
    let mut buf = [9u8; 2];
    assert_eq!(copy_link_text("abc", &mut buf), 2);
    assert_eq!(buf, [b'a', b'b']);
    let mut buf = [0u8; 0];
    assert_eq!(copy_link_text("abc", &mut buf), 0);
    let mut buf = [9u8; 3];
    assert_eq!(copy_link_text("", &mut buf), 0);
    assert_eq!(buf, [9, 9, 9]);
}

#[test]
fn reading_a_link_ends_in_the_buffer() {
    let mut buf = [9u8; 4];
    assert_eq!(finish_readlink(Ok("ab".to_string()), &mut buf), Ok(2));
    assert_eq!(buf, [b'a', b'b', 9, 9]);
    assert_eq!(finish_readlink(Ok("uvwxyz".to_string()), &mut buf), Ok(4));
    assert_eq!(buf, [b'u', b'v', b'w', b'x']);
    let error = Error::Wasi(WasiError::ENOTCAPABLE);
    assert_eq!(finish_readlink(Err(error), &mut buf), Err(error));
    assert_eq!(buf, [b'u', b'v', b'w', b'x']);
    assert_eq!(finish_readlink(Ok("ab".to_string()), &mut []), Ok(0));
}

#[test]
fn link_text_takes_one_byte_for_each_character() {
    let mut buf = [0u8; 4];
    assert_eq!(copy_link_text("\u{e9}\u{20ac}\u{1f600}", &mut buf), 3);
    assert_eq!(buf, [0xe9, 0xac, 0x00, 0]);
}
