use wasi_winfs::error::{Error, OsError, WasiError, WinError};
use wasi_winfs::host::{Hostcall, OpenSpec, Outcome, Reply, Request, Slot};
use wasi_winfs::open::path_open;
use wasi_winfs::path::PathGet;
use wasi_winfs::rights::{
    creation_disposition_from_oflags, file_access_mode_from_fdflags, file_flags_from_fdflags,
    AccessMode, CreationDisposition, Flags, FILE_APPEND_DATA, FILE_READ_DATA, FILE_WRITE_DATA,
    GENERIC_WRITE,
};
use wasi_winfs::wasi::{
    FileType, __WASI_FDFLAGS_APPEND, __WASI_FDFLAGS_DSYNC, __WASI_FDFLAGS_NONBLOCK,
    __WASI_FDFLAGS_RSYNC, __WASI_FDFLAGS_SYNC, __WASI_OFLAGS_CREAT, __WASI_OFLAGS_DIRECTORY,
    __WASI_OFLAGS_EXCL, __WASI_OFLAGS_TRUNC,
};

/// Runs a hostcall on a host with a script of replies. Returns the requests that
/// were made and the result, and checks that the script was used up.
fn drive<C: Hostcall>(
    start: Outcome<C, C::Output>,
    script: Vec<Reply>,
) -> (Vec<Request<String>>, Result<C::Output, Error>) {
    let mut made = Vec::new();
    let mut replies = script.into_iter();
    let mut outcome = start;
    loop {
        match outcome {
            Outcome::Done(result) => {
                assert!(replies.next().is_none(), "replies are left over");
                return (made, result);
            }
            Outcome::Continue(call) => {
                made.push(call.request());
                outcome = call.resume(replies.next().expect("another request"));
            }
        }
    }
}

fn resolved() -> PathGet {
    PathGet { dirfd: 7, path: "a/b".to_string() }
}

fn open(
    oflags: u16,
    fdflags: u16,
    script: Vec<Reply>,
) -> (Vec<Request<String>>, Result<u64, Error>) {
    drive(path_open(resolved(), true, true, oflags, fdflags), script)
}

fn located() -> Reply {
    Reply::Located(Ok(()))
}

fn os(code: i32) -> OsError {
    OsError { raw_os_error: Some(code) }
}

#[test]
fn dispositions_follow_the_open_flags() {
    let of = creation_disposition_from_oflags;
    assert_eq!(of(0), CreationDisposition::OpenExisting);
    assert_eq!(of(__WASI_OFLAGS_TRUNC), CreationDisposition::TruncateExisting);
    assert_eq!(of(__WASI_OFLAGS_CREAT), CreationDisposition::CreateAlways);
    assert_eq!(of(__WASI_OFLAGS_CREAT | __WASI_OFLAGS_TRUNC), CreationDisposition::CreateAlways);
    assert_eq!(of(__WASI_OFLAGS_CREAT | __WASI_OFLAGS_EXCL), CreationDisposition::CreateNew);
    assert_eq!(of(__WASI_OFLAGS_EXCL), CreationDisposition::OpenExisting);
    assert_eq!(of(__WASI_OFLAGS_EXCL | __WASI_OFLAGS_TRUNC), CreationDisposition::TruncateExisting);
    assert_eq!(of(__WASI_OFLAGS_DIRECTORY), CreationDisposition::OpenExisting);
}

#[test]
fn rights_follow_the_flags() {
    let of = file_access_mode_from_fdflags;
    assert_eq!(of(0, false, false), AccessMode { bits: 0x20000 });
    assert_eq!(of(0, true, false), AccessMode { bits: 0x120089 });
    assert_eq!(of(0, false, true), AccessMode { bits: 0x120116 });
    assert_eq!(of(0, true, true), AccessMode { bits: 0x12019f });
    assert_eq!(of(__WASI_FDFLAGS_APPEND, false, false), AccessMode { bits: 0x20004 });
    assert_eq!(of(__WASI_FDFLAGS_APPEND, true, false), AccessMode { bits: 0x12008d });
    assert_eq!(of(__WASI_FDFLAGS_APPEND, false, true), AccessMode { bits: 0x120114 });
    assert_eq!(of(__WASI_FDFLAGS_APPEND, true, true), AccessMode { bits: 0x12019d });
}

#[test]
fn append_takes_the_right_to_overwrite() {
    let mode = file_access_mode_from_fdflags(__WASI_FDFLAGS_APPEND, true, true);
    assert!(mode.contains(FILE_APPEND_DATA));
    assert!(mode.contains(FILE_READ_DATA));
    assert!(!mode.contains(FILE_WRITE_DATA));
    assert!(!mode.contains(FILE_WRITE_DATA | FILE_APPEND_DATA));
}

#[test]
fn every_sync_flag_writes_through() {
    assert_eq!(file_flags_from_fdflags(0), Flags { bits: 0x0200_0000 });
    assert_eq!(file_flags_from_fdflags(__WASI_FDFLAGS_APPEND), Flags { bits: 0x0200_0000 });
    for flag in [__WASI_FDFLAGS_DSYNC, __WASI_FDFLAGS_RSYNC, __WASI_FDFLAGS_SYNC] {
        assert_eq!(file_flags_from_fdflags(flag), Flags { bits: 0x8200_0000 });
    }
}

#[test]
fn nonblock_makes_no_difference() {
    for fdflags in 0..32u16 {
        let nonblock = fdflags | __WASI_FDFLAGS_NONBLOCK;
        assert_eq!(file_flags_from_fdflags(nonblock), file_flags_from_fdflags(fdflags));
        assert_eq!(
            file_access_mode_from_fdflags(nonblock, true, true),
            file_access_mode_from_fdflags(fdflags, true, true)
        );
    }
}

#[test]
fn an_existing_file_is_opened() {
    let (made, result) = open(
        0,
        0,
        vec![located(), Reply::Type(Ok(FileType::RegularFile)), Reply::Opened(Ok(11))],
    );
    assert_eq!(result, Ok(11));
    assert_eq!(
        made,
        vec![
            Request::Concatenate { dirfd: 7, path: "a/b".to_string(), into: Slot::Target },
            Request::SymlinkMetadata(Slot::Target),
            Request::Open {
                at: Slot::Target,
                options: OpenSpec {
                    read: false,
                    write: false,
                    create: false,
                    create_new: false,
                    truncate: false,
                    access_mode: Some(AccessMode { bits: 0x12019f }),
                    custom_flags: Some(Flags { bits: 0x0200_0000 }),
                },
            },
        ]
    );
}

fn options_for(oflags: u16, fdflags: u16) -> OpenSpec {
    let (made, result) = open(
        oflags,
        fdflags,
        vec![located(), Reply::Type(Err(os(2))), Reply::Opened(Ok(1))],
    );
    assert_eq!(result, Ok(1));
    match made[2] {
        Request::Open { at: Slot::Target, options } => options,
        _ => panic!("no request to open"),
    }
}

#[test]
fn creation_and_truncation_are_asked_for() {
    let created = options_for(__WASI_OFLAGS_CREAT, 0);
    assert!(created.create && created.write && !created.create_new && !created.truncate);
    let new = options_for(__WASI_OFLAGS_CREAT | __WASI_OFLAGS_EXCL, 0);
    assert!(new.create_new && new.write && !new.create && !new.truncate);
    let truncated = options_for(__WASI_OFLAGS_TRUNC, 0);
    assert!(truncated.truncate && truncated.write && !truncated.create && !truncated.create_new);
    assert_eq!(truncated.access_mode, Some(AccessMode { bits: 0x4012_019f }));
    let both = options_for(__WASI_OFLAGS_CREAT | __WASI_OFLAGS_TRUNC, 0);
    assert!(both.create && both.write && !both.truncate);
    assert_eq!(both.access_mode, Some(AccessMode { bits: 0x12019f | GENERIC_WRITE }));
}

#[test]
fn truncation_does_not_go_with_append() {
    let (made, result) = open(__WASI_OFLAGS_TRUNC, __WASI_FDFLAGS_APPEND, vec![]);
    assert_eq!(made, vec![]);
    assert_eq!(result, Err(Error::Wasi(WasiError::ENOTSUP)));
}

#[test]
fn a_refused_open_makes_no_request_to_open() {
    let (made, result) = open(0, 0, vec![Reply::Located(Err(Error::Wasi(WasiError::ENOTCAPABLE)))]);
    assert_eq!((made.len(), result), (1, Err(Error::Wasi(WasiError::ENOTCAPABLE))));
    let (made, result) = open(0, 0, vec![located(), Reply::Type(Ok(FileType::Symlink))]);
    assert_eq!((made.len(), result), (2, Err(Error::Wasi(WasiError::ELOOP))));
    let (made, result) = open(
        __WASI_OFLAGS_DIRECTORY,
        0,
        vec![located(), Reply::Type(Ok(FileType::RegularFile))],
    );
    assert_eq!((made.len(), result), (2, Err(Error::Wasi(WasiError::ENOTDIR))));
    let (made, result) = open(0, 0, vec![located(), Reply::Type(Err(os(5)))]);
    assert_eq!((made.len(), result), (2, Err(Error::Winx(WinError { code: 5 }))));
    let none = OsError { raw_os_error: None };
    let (made, result) = open(0, 0, vec![located(), Reply::Type(Err(none))]);
    assert_eq!((made.len(), result), (2, Err(Error::Wasi(WasiError::EIO))));
}

#[test]
fn a_directory_can_be_opened_as_one() {
    let (_, result) = open(
        __WASI_OFLAGS_DIRECTORY,
        0,
        vec![located(), Reply::Type(Ok(FileType::Directory)), Reply::Opened(Ok(3))],
    );
    assert_eq!(result, Ok(3));
}

#[test]
fn a_failed_open_is_reported_as_it_is() {
    let script = vec![located(), Reply::Type(Err(os(2))), Reply::Opened(Err(os(2)))];
    let (_, result) = open(0, 0, script);
    assert_eq!(result, Err(Error::Io(os(2))));
}

#[test]
fn named_errors_keep_their_codes() {
    let names = [
        0, 2, 3, 4, 5, 6, 8, 10, 14, 21, 32, 50, 80, 109, 111, 123, 131, 145, 154, 170, 183, 267,
        1314, 4390,
    ];
    for code in names {
        assert_eq!(os(code).win_error(), Some(WinError { code: code as u32 }));
    }
    assert_eq!(OsError { raw_os_error: None }.win_error(), None);
}

#[test]
fn errors_without_a_name_are_all_the_same() {
    for code in [1, 7, 122, 124, 4389, 4391, i32::MAX, i32::MIN, -1, -5] {
        assert_eq!(os(code).win_error(), Some(WinError { code: 0xffff_ffff }));
        let (_, result) = open(0, 0, vec![located(), Reply::Type(Err(os(code)))]);
        assert_eq!(result, Err(Error::Winx(WinError { code: 0xffff_ffff })));
    }
}

#[test]
fn a_reply_to_something_else_is_ignored() {
    let call = match path_open(resolved(), true, false, 0, 0) {
        Outcome::Continue(call) => call,
        Outcome::Done(_) => panic!("ended at once"),
    };
    let call = match call.resume(Reply::Opened(Ok(9))) {
        Outcome::Continue(call) => call,
        Outcome::Done(_) => panic!("ended"),
    };
    assert_eq!(
        call.request(),
        Request::Concatenate { dirfd: 7, path: "a/b".to_string(), into: Slot::Target }
    );
}
