use wasi_winfs::advice::path_link;
use wasi_winfs::directory::{path_create_directory, path_remove_directory};
use wasi_winfs::error::{Error, OsError, WasiError, WinError};
use wasi_winfs::host::{Hostcall, Outcome, Reply, Request, Slot};
use wasi_winfs::path::{strip_trailing_slashes_and_concatenate, PathGet};
use wasi_winfs::rename::path_rename;
use wasi_winfs::symlink::path_symlink;
use wasi_winfs::unlink::path_unlink_file;
use wasi_winfs::wasi::FileType;

/// Runs a hostcall on a host with a script of replies. Returns the requests that
/// were made and the result, and checks that the script was used up.
fn drive<C: Hostcall>(
    start: Outcome<C, C::Output>,
    script: Vec<Reply>,
) -> (Vec<Request<String>>, Result<C::Output, Error>) {
    let mut made = Vec::new();
    let mut replies = script.into_iter();
    let mut outcome = start;
    loop {
        match outcome {
            Outcome::Done(result) => {
                assert!(replies.next().is_none(), "replies are left over");
                return (made, result);
            }
            Outcome::Continue(call) => {
                made.push(call.request());
                outcome = call.resume(replies.next().expect("another request"));
            }
        }
    }
}

const DENIED: i32 = 5;
const INVALID_NAME: i32 = 123;
const NOT_A_REPARSE_POINT: i32 = 4390;

fn at(dirfd: u64, path: &str) -> PathGet {
    PathGet { dirfd, path: path.to_string() }
}

fn located() -> Reply {
    Reply::Located(Ok(()))
}

fn yes() -> Reply {
    Reply::Answer(true)
}

fn no() -> Reply {
    Reply::Answer(false)
}

fn finished() -> Reply {
    Reply::Finished(Ok(()))
}

fn failed(code: i32) -> Reply {
    Reply::Finished(Err(OsError { raw_os_error: Some(code) }))
}

fn failed_without_code() -> Reply {
    Reply::Finished(Err(OsError { raw_os_error: None }))
}

fn io(code: i32) -> Result<(), Error> {
    Err(Error::Io(OsError { raw_os_error: Some(code) }))
}

fn wasi(error: WasiError) -> Result<(), Error> {
    Err(Error::Wasi(error))
}

fn winx(code: u32) -> Result<(), Error> {
    Err(Error::Winx(WinError { code }))
}

fn join(dirfd: u64, path: &str, into: Slot) -> Request<String> {
    Request::Concatenate { dirfd, path: path.to_string(), into }
}

fn rename(old: &str, new: &str, script: Vec<Reply>) -> (Vec<Request<String>>, Result<(), Error>) {
    drive(Outcome::Continue(path_rename(at(1, old), at(2, new))), script)
}

fn symlink(old: &str, new: &str, script: Vec<Reply>) -> (Vec<Request<String>>, Result<(), Error>) {
    drive(Outcome::Continue(path_symlink(old, at(4, new))), script)
}

fn unlink(script: Vec<Reply>) -> (Vec<Request<String>>, Result<(), Error>) {
    drive(Outcome::Continue(path_unlink_file(at(6, "f"))), script)
}

#[test]
fn trailing_slashes_are_stripped() {
    let strip = strip_trailing_slashes_and_concatenate;
    assert_eq!(strip(&at(3, "a/b")), None);
    assert_eq!(strip(&at(3, "")), None);
    assert_eq!(strip(&at(3, "a/b/")), Some(join(3, "a/b", Slot::Trimmed)));
    assert_eq!(strip(&at(3, "a//b///")), Some(join(3, "a//b", Slot::Trimmed)));
    assert_eq!(strip(&at(3, "///")), Some(join(3, "", Slot::Trimmed)));
    assert_eq!(strip(&at(3, "\u{e9}\u{1f600}/")), Some(join(3, "\u{e9}\u{1f600}", Slot::Trimmed)));
}

#[test]
fn a_file_is_renamed() {
    let (made, result) = rename("a", "b", vec![located(), located(), no(), yes(), finished()]);
    assert_eq!(result, Ok(()));
    assert_eq!(
        made,
        vec![
            join(1, "a", Slot::Source),
            join(2, "b", Slot::Target),
            Request::IsDir(Slot::Source),
            Request::IsFile(Slot::Source),
            Request::Rename { from: Slot::Source, to: Slot::Target },
        ]
    );
}

#[test]
fn a_directory_does_not_replace_a_file() {
    let (made, result) = rename("a", "b", vec![located(), located(), yes(), yes()]);
    assert_eq!(result, wasi(WasiError::ENOTDIR));
    assert_eq!(made[3], Request::IsFile(Slot::Target));
}

#[test]
fn a_file_gets_no_name_with_a_slash() {
    let (made, result) = rename("a", "b/", vec![located(), located(), no(), yes()]);
    assert_eq!(result, wasi(WasiError::ENOTDIR));
    assert!(made.iter().all(|request| !matches!(request, Request::Rename { .. })));
    let (_, result) = rename("a", "b/", vec![located(), located(), yes(), no(), no(), finished()]);
    assert_eq!(result, Ok(()));
}

#[test]
fn a_path_that_cannot_be_located_is_not_renamed() {
    let refused = || Reply::Located(Err(Error::Wasi(WasiError::ENOTCAPABLE)));
    let (made, result) = rename("/a", "b", vec![refused()]);
    assert_eq!((made.len(), result), (1, wasi(WasiError::ENOTCAPABLE)));
    let (made, result) = rename("a", "/b", vec![located(), refused()]);
    assert_eq!((made.len(), result), (2, wasi(WasiError::ENOTCAPABLE)));
}

#[test]
fn an_empty_directory_makes_room() {
    let (made, result) = rename(
        "a",
        "b",
        vec![
            located(),
            located(),
            yes(),
            no(),
            no(),
            failed(DENIED),
            no(),
            finished(),
            finished(),
        ],
    );
    assert_eq!(result, Ok(()));
    assert_eq!(
        made[5..],
        [
            Request::Rename { from: Slot::Source, to: Slot::Target },
            Request::IsFile(Slot::Source),
            Request::RemoveDir(Slot::Target),
            Request::Rename { from: Slot::Source, to: Slot::Target },
        ]
    );
}

#[test]
fn a_file_does_not_replace_a_directory() {
    let (made, result) = rename(
        "a",
        "b",
        vec![located(), located(), no(), yes(), failed(DENIED), yes()],
    );
    assert_eq!(result, wasi(WasiError::EISDIR));
    assert!(made.iter().all(|request| !matches!(request, Request::RemoveDir(_))));
}

#[test]
fn a_full_directory_stays() {
    let start = || vec![located(), located(), no(), no(), failed(DENIED), no()];
    let mut script = start();
    script.push(failed(145));
    assert_eq!(rename("a", "b", script).1, io(145));
    let mut script = start();
    script.push(finished());
    script.push(failed(DENIED));
    assert_eq!(rename("a", "b", script).1, io(DENIED));
}

#[test]
fn renaming_a_file_by_a_name_with_a_slash() {
    let start = || vec![located(), located(), no(), no(), failed(INVALID_NAME)];
    let mut script = start();
    script.extend([located(), yes()]);
    let (made, result) = rename("a//", "b", script);
    assert_eq!(result, wasi(WasiError::ENOTDIR));
    assert_eq!(made[5..], [join(1, "a", Slot::Trimmed), Request::IsFile(Slot::Trimmed)]);
    let mut script = start();
    script.extend([located(), no()]);
    assert_eq!(rename("a/", "b", script).1, winx(123));
    let mut script = start();
    script.push(Reply::Located(Err(Error::TryFromInt)));
    assert_eq!(rename("a/", "b", script).1, Err(Error::TryFromInt));
    assert_eq!(rename("a", "b", start()).1, winx(123));
}

#[test]
fn other_failures_of_a_rename() {
    let start = || vec![located(), located(), no(), no()];
    let mut script = start();
    script.push(failed_without_code());
    assert_eq!(rename("a", "b", script).1, wasi(WasiError::EIO));
    let mut script = start();
    script.push(failed(32));
    assert_eq!(rename("a", "b", script).1, winx(32));
    let mut script = start();
    script.push(failed(17));
    assert_eq!(rename("a", "b", script).1, winx(0xffff_ffff));
}

#[test]
fn a_link_to_a_file_is_created() {
    let (made, result) = symlink("t", "l", vec![located(), located(), finished()]);
    assert_eq!(result, Ok(()));
    assert_eq!(
        made,
        vec![
            join(4, "t", Slot::Source),
            join(4, "l", Slot::Target),
            Request::SymlinkFile { target: Slot::Source, link: Slot::Target },
        ]
    );
}

#[test]
fn a_link_to_a_directory_is_created() {
    let start = || vec![located(), located(), failed(NOT_A_REPARSE_POINT)];
    let mut script = start();
    script.push(finished());
    let (made, result) = symlink("t", "l", script);
    assert_eq!(result, Ok(()));
    assert_eq!(made[3], Request::SymlinkDir { target: Slot::Source, link: Slot::Target });
    let mut script = start();
    script.push(failed(1314));
    assert_eq!(symlink("t", "l", script).1, io(1314));
}

#[test]
fn a_link_does_not_replace_anything() {
    let denied = || vec![located(), located(), failed(DENIED)];
    let mut script = denied();
    script.push(yes());
    let (made, result) = symlink("t", "l", script);
    assert_eq!(result, wasi(WasiError::EEXIST));
    assert_eq!(made[3], Request::Exists(Slot::Target));
    let mut script = denied();
    script.push(no());
    assert_eq!(symlink("t", "l", script).1, winx(5));
    let invalid = || vec![located(), located(), failed(INVALID_NAME)];
    let mut script = invalid();
    script.extend([located(), yes()]);
    let (made, result) = symlink("t", "l/", script);
    assert_eq!(result, wasi(WasiError::EEXIST));
    assert_eq!(made[3..], [join(4, "l", Slot::Trimmed), Request::Exists(Slot::Trimmed)]);
    let mut script = invalid();
    script.extend([located(), no()]);
    assert_eq!(symlink("t", "l/", script).1, winx(123));
    assert_eq!(symlink("t/", "l", invalid()).1, winx(123));
}

#[test]
fn other_failures_of_a_link() {
    let refused = || Reply::Located(Err(Error::Wasi(WasiError::ENOTCAPABLE)));
    assert_eq!(symlink("/t", "l", vec![refused()]).1, wasi(WasiError::ENOTCAPABLE));
    assert_eq!(symlink("t", "/l", vec![located(), refused()]).1, wasi(WasiError::ENOTCAPABLE));
    let script = vec![located(), located(), failed_without_code()];
    assert_eq!(symlink("t", "l", script).1, wasi(WasiError::EIO));
    let script = vec![located(), located(), failed(1314)];
    assert_eq!(symlink("t", "l", script).1, winx(1314));
    let script = vec![located(), located(), failed(INVALID_NAME), refused()];
    assert_eq!(symlink("t", "l/", script).1, wasi(WasiError::ENOTCAPABLE));
}

#[test]
fn files_and_links_are_unlinked() {
    let (made, result) = unlink(vec![
        located(),
        Reply::Type(Ok(FileType::RegularFile)),
        finished(),
    ]);
    assert_eq!(result, Ok(()));
    assert_eq!(
        made,
        vec![
            join(6, "f", Slot::Target),
            Request::SymlinkMetadata(Slot::Target),
            Request::RemoveFile(Slot::Target),
        ]
    );
    let link = || vec![located(), Reply::Type(Ok(FileType::Symlink))];
    let mut script = link();
    script.push(finished());
    assert_eq!(unlink(script).1, Ok(()));
    let mut script = link();
    script.extend([failed(DENIED), finished()]);
    let (made, result) = unlink(script);
    assert_eq!(result, Ok(()));
    assert_eq!(made[2..], [Request::RemoveFile(Slot::Target), Request::RemoveDir(Slot::Target)]);
}

#[test]
fn nothing_else_is_unlinked() {
    let (made, result) = unlink(vec![located(), Reply::Type(Ok(FileType::Directory))]);
    assert_eq!((made.len(), result), (2, wasi(WasiError::EISDIR)));
    for ftype in [FileType::Unknown, FileType::CharacterDevice, FileType::SocketStream] {
        let (made, result) = unlink(vec![located(), Reply::Type(Ok(ftype))]);
        assert_eq!((made.len(), result), (2, wasi(WasiError::EINVAL)));
    }
}

#[test]
fn failures_of_an_unlink() {
    let missing = Reply::Type(Err(OsError { raw_os_error: Some(2) }));
    assert_eq!(unlink(vec![located(), missing]).1, io(2));
    let file = || vec![located(), Reply::Type(Ok(FileType::RegularFile))];
    let mut script = file();
    script.push(failed(DENIED));
    assert_eq!(unlink(script).1, io(DENIED));
    let link = || vec![located(), Reply::Type(Ok(FileType::Symlink))];
    let mut script = link();
    script.push(failed(32));
    assert_eq!(unlink(script).1, winx(32));
    let mut script = link();
    script.push(failed_without_code());
    assert_eq!(unlink(script).1, wasi(WasiError::EIO));
    let mut script = link();
    script.extend([failed(DENIED), failed(145)]);
    assert_eq!(unlink(script).1, io(145));
}

#[test]
fn directories_are_created_and_removed() {
    let (made, result) = drive(
        Outcome::Continue(path_create_directory(8, "d")),
        vec![located(), finished()],
    );
    assert_eq!(result, Ok(()));
    assert_eq!(made, vec![join(8, "d", Slot::Target), Request::CreateDir(Slot::Target)]);
    let (made, result) = drive(
        Outcome::Continue(path_remove_directory(at(8, "d"))),
        vec![located(), failed(145)],
    );
    assert_eq!(result, io(145));
    assert_eq!(made, vec![join(8, "d", Slot::Target), Request::RemoveDir(Slot::Target)]);
    let refused = Reply::Located(Err(Error::Wasi(WasiError::ENOTCAPABLE)));
    let (_, result) = drive(Outcome::Continue(path_create_directory(8, "/d")), vec![refused]);
    assert_eq!(result, wasi(WasiError::ENOTCAPABLE));
}

#[test]
fn there_are_no_hard_links() {
    assert_eq!(path_link(at(1, "a"), at(1, "b")).hostcall, "path_link");
}

#[test]
fn requests_read_only_slots_that_were_filled() {
    let scripts = vec![
        vec![located(), located(), yes(), no(), no(), failed(DENIED), no(), finished(), finished()],
        vec![located(), located(), no(), no(), failed(INVALID_NAME), located(), no()],
    ];
    for script in scripts {
        let (made, _) = rename("a/", "b", script);
        let mut filled = Vec::new();
        for request in made {
            match request {
                Request::Concatenate { into, .. } => filled.push(into),
                Request::IsDir(slot) | Request::IsFile(slot) | Request::RemoveDir(slot) => {
                    assert!(filled.contains(&slot));
                }
                Request::Rename { from, to } => {
                    assert!(filled.contains(&from) && filled.contains(&to));
                }
                other => panic!("{:?}", other),
            }
        }
    }
}
