//! Reading where a link points.
use crate::error::{Error, WasiError};
use crate::host::{self, Host, Hostcall, Outcome, Relative, Reply, Request, Slot};
use crate::path::PathGet;
use vstd::prelude::*;

verus! {

/// What `path_readlink` waits for.
#[derive(Clone, Copy, Debug, PartialEq, Eq)]
pub enum ReadlinkStage {
    /// The path joined to its directory's.
    Locate,
    /// Where the link points.
    ReadLink,
    /// The path of the directory.
    LocateDirectory,
    /// Where the link points, relative to the directory.
    Strip,
}

/// `path_readlink` under way. Its output is the text to copy into the guest's
/// buffer.
#[derive(Debug, PartialEq, Eq)]
pub struct PathReadlink {
    pub resolved: PathGet,
    pub stage: ReadlinkStage,
}

/// What a link that points there gives the guest. WASI has no absolute paths, so
/// a link out of the directory gives nothing, and neither does a path that is not
/// Unicode.
pub open spec fn link_text(found: Relative) -> Result<String, Error> {
    match found {
        Relative::Outside => Err(Error::Wasi(WasiError::ENOTCAPABLE)),
        Relative::NotUnicode => Err(Error::Wasi(WasiError::EILSEQ)),
        Relative::Text(text) => Ok(text),
    }
}

impl Hostcall for PathReadlink {
    type Output = String;

    open spec fn asks(self) -> Request<Seq<char>> {
        match self.stage {
            ReadlinkStage::Locate => self.resolved.spec_concatenate(Slot::Target),
            ReadlinkStage::ReadLink => Request::ReadLink { link: Slot::Target, into: Slot::Link },
            ReadlinkStage::LocateDirectory => Request::FilePath {
                file: self.resolved.dirfd,
                into: Slot::Directory,
            },
            ReadlinkStage::Strip => Request::StripPrefix {
                of: Slot::Link,
                base: Slot::Directory,
            },
        }
    }

    open spec fn after(self, reply: Reply) -> Outcome<Self, String> {
        match (self.stage, reply) {
            (ReadlinkStage::Locate, Reply::Located(Ok(()))) => Outcome::Continue(
                PathReadlink { stage: ReadlinkStage::ReadLink, ..self },
            ),
            (ReadlinkStage::Locate, Reply::Located(Err(error))) => Outcome::Done(Err(error)),
            (ReadlinkStage::ReadLink, Reply::Finished(Ok(()))) => Outcome::Continue(
                PathReadlink { stage: ReadlinkStage::LocateDirectory, ..self },
            ),
            (ReadlinkStage::ReadLink, Reply::Finished(Err(error))) => Outcome::Done(
                Err(Error::Io(error)),
            ),
            (ReadlinkStage::LocateDirectory, Reply::Located(Ok(()))) => Outcome::Continue(
                PathReadlink { stage: ReadlinkStage::Strip, ..self },
            ),
            (ReadlinkStage::LocateDirectory, Reply::Located(Err(error))) => Outcome::Done(
                Err(error),
            ),
            (ReadlinkStage::Strip, Reply::Stripped(found)) => Outcome::Done(link_text(found)),
            _ => Outcome::Continue(self),
        }
    }

    proof fn other_replies_change_nothing(self, reply: Reply) {
    }

    fn request(&self) -> Request<String> {
        match self.stage {
            ReadlinkStage::Locate => self.resolved.concatenate(Slot::Target),
            ReadlinkStage::ReadLink => Request::ReadLink { link: Slot::Target, into: Slot::Link },
            ReadlinkStage::LocateDirectory => Request::FilePath {
                file: self.resolved.dirfd,
                into: Slot::Directory,
            },
            ReadlinkStage::Strip => Request::StripPrefix {
                of: Slot::Link,
                base: Slot::Directory,
            },
        }
    }

    fn resume(self, reply: Reply) -> Outcome<Self, String> {
        match (self.stage, reply) {
            (
                ReadlinkStage::Locate | ReadlinkStage::LocateDirectory,
                Reply::Located(Err(error)),
            ) => Outcome::Done(Err(error)),
            (ReadlinkStage::Locate, Reply::Located(Ok(()))) => Outcome::Continue(
                PathReadlink { stage: ReadlinkStage::ReadLink, ..self },
            ),
            (ReadlinkStage::ReadLink, Reply::Finished(Ok(()))) => Outcome::Continue(
                PathReadlink { stage: ReadlinkStage::LocateDirectory, ..self },
            ),
            (ReadlinkStage::ReadLink, Reply::Finished(Err(error))) => Outcome::Done(
                Err(Error::Io(error)),
            ),
            (ReadlinkStage::LocateDirectory, Reply::Located(Ok(()))) => Outcome::Continue(
                PathReadlink { stage: ReadlinkStage::Strip, ..self },
            ),
            (ReadlinkStage::Strip, Reply::Stripped(found)) => Outcome::Done(
                match found {
                    Relative::Outside => Err(Error::Wasi(WasiError::ENOTCAPABLE)),
                    Relative::NotUnicode => Err(Error::Wasi(WasiError::EILSEQ)),
                    Relative::Text(text) => Ok(text),
                },
            ),
            _ => Outcome::Continue(self),
        }
    }
}

/// Reads where the link at a path points, relative to the directory of the path. On
/// every host this ends after at most four replies, with [`path_readlink_result`].
pub fn path_readlink(resolved: PathGet) -> (call: PathReadlink)
    ensures
        call == (PathReadlink { resolved, stage: ReadlinkStage::Locate }),
        forall|host: Host, n: nat| #[trigger]
            host::run(call, host, n, 4) == Some(path_readlink_result(resolved, host, n)),
{
    let call = PathReadlink { resolved, stage: ReadlinkStage::Locate };
    proof {
        assert forall|host: Host, n: nat| #[trigger]
            host::run(call, host, n, 4) == Some(path_readlink_result(resolved, host, n)) by {
            path_readlink_ends(call, host, n);
        }
    }
    call
}

/// What `path_readlink` returns on a host.
pub open spec fn path_readlink_result(resolved: PathGet, host: Host, n: nat) -> Result<
    String,
    Error,
> {
    let located = (host.concatenate)(n, resolved.dirfd, resolved.path@, Slot::Target);
    let read = (host.read_link)(n + 1, Slot::Target, Slot::Link);
    let directory = (host.file_path)(n + 2, resolved.dirfd, Slot::Directory);
    if located is Err {
        Err(located->Err_0)
    } else if read is Err {
        Err(Error::Io(read->Err_0))
    } else if directory is Err {
        Err(directory->Err_0)
    } else {
        link_text((host.strip_prefix)(n + 3, Slot::Link, Slot::Directory))
    }
}

/// On every host `path_readlink` ends after at most four replies, with its
/// result.
pub proof fn path_readlink_ends(call: PathReadlink, host: Host, n: nat)
    requires
        call.stage == ReadlinkStage::Locate,
    ensures
        host::run(call, host, n, 4) == Some(path_readlink_result(call.resolved, host, n)),
{
    reveal_with_fuel(host::run, 5);
}

/// The byte that stands for a character in the guest's buffer: the lowest eight
/// bits of its number.
pub open spec fn byte_of(c: char) -> u8 {
    (c as u32 % 256) as u8
}

/// Copies where a link points into the guest's buffer, one byte for each
/// character, until either is at its end. Returns how many bytes were written;
/// the rest of the buffer stays as it was.
pub fn copy_link_text(text: &str, buf: &mut [u8]) -> (nread: usize)
    ensures
        nread == (if text@.len() < old(buf)@.len() {
            text@.len()
        } else {
            old(buf)@.len()
        }),
        final(buf)@ == Seq::new(nread as nat, |i: int| byte_of(text@[i])) + old(buf)@.skip(
            nread as int,
        ),
        final(buf)@.len() == old(buf)@.len(),
        forall|i: int| 0 <= i < nread ==> #[trigger] final(buf)@[i] == text@[i] as u32 % 256,
        forall|i: int| nread <= i < old(buf)@.len() ==> #[trigger] final(buf)@[i] == old(buf)@[i],
{
    let ghost before = buf@;
    let mut chars = text.chars();
    let mut nread: usize = 0;
    broadcast use vstd::string::axiom_spec_iter;
    broadcast use vstd::string::next_postcondition;

    let len: usize = buf.len();
    assert(text@.skip(0) == text@);
    assert(before.skip(0) == before);
    while nread < len
        invariant
            len == before.len(),
            buf@.len() == len,
            nread <= len,
            nread <= text@.len(),
            vstd::std_specs::iter::IteratorSpec::remaining(&chars) == text@.skip(nread as int),
            buf@ == Seq::new(nread as nat, |i: int| byte_of(text@[i])) + before.skip(
                nread as int,
            ),
        ensures
            nread == len || nread == text@.len(),
        decreases len - nread,
    {
        match chars.next() {
            Some(c) => {
                let number = c as u32;
                assert(number % 256 == number & 0xff) by (bit_vector);
                buf[nread] = (number & 0xff) as u8;
                assert(text@.skip(nread as int).drop_first() == text@.skip(nread + 1));
                nread = nread + 1;
            },
            None => {
                break;
            },
        }
    }
    nread
}

/// Ends `path_readlink` in the guest's buffer: copies the text into it, or returns
/// the error and leaves the buffer as it was.
pub fn finish_readlink(text: Result<String, Error>, buf: &mut [u8]) -> (result: Result<
    usize,
    Error,
>)
    ensures
        text is Err ==> result == Err::<usize, Error>(text->Err_0) && final(buf)@ == old(buf)@,
        text is Ok ==> {
            let copied = if text->Ok_0@.len() < old(buf)@.len() {
                text->Ok_0@.len()
            } else {
                old(buf)@.len()
            };
            &&& result is Ok
            &&& result->Ok_0 == copied
            &&& final(buf)@ == Seq::new(copied, |i: int| byte_of(text->Ok_0@[i])) + old(
                buf,
            )@.skip(copied as int)
            &&& final(buf)@.len() == old(buf)@.len()
            &&& forall|i: int|
                0 <= i < copied ==> #[trigger] final(buf)@[i] == text->Ok_0@[i] as u32 % 256
            &&& forall|i: int|
                copied <= i < old(buf)@.len() ==> #[trigger] final(buf)@[i] == old(buf)@[i]
        },
{
    match text {
        Ok(text) => Ok(copy_link_text(text.as_str(), buf)),
        Err(error) => Err(error),
    }
}

/// A character of the link's text stands in the guest's buffer as the remainder of its
/// number by 256: an ASCII character, in upper or lower case, as itself.
pub proof fn ascii_stands_for_itself(c: char)
    ensures
        byte_of(c) == c as u32 % 256,
        (c as u32) < 128 ==> byte_of(c) == c as u32,
{
}

/// What the guest's buffer holds after `path_readlink`, for any text and any buffer: as
/// many of the text's characters as fit, each by the remainder of its number by 256, and
/// after them what was there before. So a text of ASCII characters that fits is there
/// letter for letter.
pub proof fn the_buffer_holds_the_text(text: Seq<char>, before: Seq<u8>, after: Seq<u8>, count: nat)
    requires
        count == (if text.len() < before.len() {
            text.len()
        } else {
            before.len()
        }),
        after == Seq::new(count, |i: int| byte_of(text[i])) + before.skip(count as int),
    ensures
        after.len() == before.len(),
        forall|i: int| 0 <= i < count ==> #[trigger] after[i] == text[i] as u32 % 256,
        forall|i: int|
            0 <= i < count && (text[i] as u32) < 128 ==> #[trigger] after[i] == text[i] as u32,
        forall|i: int| count <= i < before.len() ==> #[trigger] after[i] == before[i],
{
}

/// `path_readlink` reads the link at the path and gives where it points, relative to the
/// directory that the path is relative to. A link out of that directory gives
/// `ENOTCAPABLE`, and one whose text is not Unicode `EILSEQ`. The first thing that fails
/// before is the result otherwise.
pub proof fn a_link_is_read_relative_to_its_directory(call: PathReadlink, host: Host, n: nat)
    requires
        call.stage == ReadlinkStage::Locate,
    ensures
        ({
            let made = host::requests(call, host, n, 4);
            let result = host::run(call, host, n, 4);
            let dirfd = call.resolved.dirfd;
            let path = call.resolved.path@;
            &&& made[0] == Request::Concatenate { dirfd, path, into: Slot::Target }
            &&& match (host.concatenate)(n, dirfd, path, Slot::Target) {
                Err(error) => made.len() == 1 && result == Some(Err::<String, Error>(error)),
                Ok(()) => {
                    &&& made[1] == Request::<Seq<char>>::ReadLink {
                        link: Slot::Target,
                        into: Slot::Link,
                    }
                    &&& match (host.read_link)(n + 1, Slot::Target, Slot::Link) {
                        Err(error) => {
                            &&& made.len() == 2
                            &&& result == Some(Err::<String, Error>(Error::Io(error)))
                        },
                        Ok(()) => {
                            &&& made[2] == Request::<Seq<char>>::FilePath {
                                file: dirfd,
                                into: Slot::Directory,
                            }
                            &&& match (host.file_path)(n + 2, dirfd, Slot::Directory) {
                                Err(error) => {
                                    &&& made.len() == 3
                                    &&& result == Some(Err::<String, Error>(error))
                                },
                                Ok(()) => {
                                    &&& made.len() == 4
                                    &&& made[3] == Request::<Seq<char>>::StripPrefix {
                                        of: Slot::Link,
                                        base: Slot::Directory,
                                    }
                                    &&& match (host.strip_prefix)(
                                        n + 3,
                                        Slot::Link,
                                        Slot::Directory,
                                    ) {
                                        Relative::Text(text) => result == Some(
                                            Ok::<String, Error>(text),
                                        ),
                                        Relative::Outside => result == Some(
                                            Err::<String, Error>(
                                                Error::Wasi(WasiError::ENOTCAPABLE),
                                            ),
                                        ),
                                        Relative::NotUnicode => result == Some(
                                            Err::<String, Error>(Error::Wasi(WasiError::EILSEQ)),
                                        ),
                                    }
                                },
                            }
                        },
                    }
                },
            }
        }),
{
    reveal_with_fuel(host::run, 5);
    reveal_with_fuel(host::requests, 5);
}

/// Every request of `path_readlink` finds its paths and its handle ready.
pub proof fn path_readlink_finds_ready(call: PathReadlink, host: Host, n: nat)
    requires
        call.stage == ReadlinkStage::Locate,
    ensures
        host::finds_ready(call, host, n, 4, host::ready_with(set![call.resolved.dirfd])),
{
    reveal_with_fuel(host::finds_ready, 5);
}

} // verus!
