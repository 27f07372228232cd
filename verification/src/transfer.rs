//! Reading and writing at an offset.
use crate::error::{Error, OsError};
use crate::host::{self, Handle, Host, Hostcall, Outcome, Reply, Request};
use crate::wasi::FileSize;
use vstd::prelude::*;

verus! {

/// Which way the bytes go.
#[derive(Clone, Copy, Debug, PartialEq, Eq)]
pub enum Direction {
    Read,
    Write,
}

/// What a transfer waits for.
#[derive(Clone, Copy, Debug, PartialEq, Eq)]
pub enum TransferStage {
    /// Where the cursor is.
    Cursor,
    /// The bytes; the cursor was at `cursor`.
    Move { cursor: u64 },
    /// The cursor, put back to where it was; so many bytes were moved.
    Restore { cursor: u64, moved: usize },
}

/// `fd_pread` or `fd_pwrite` under way.
#[derive(Debug, PartialEq, Eq)]
pub struct TransferAt {
    pub file: Handle,
    pub direction: Direction,
    pub offset: FileSize,
    pub stage: TransferStage,
}

impl TransferAt {
    /// The request that moves the bytes.
    pub open spec fn transfer(self) -> Request<Seq<char>> {
        match self.direction {
            Direction::Read => Request::SeekRead { file: self.file, offset: self.offset },
            Direction::Write => Request::SeekWrite { file: self.file, offset: self.offset },
        }
    }
}

impl Hostcall for TransferAt {
    type Output = usize;

    open spec fn asks(self) -> Request<Seq<char>> {
        match self.stage {
            TransferStage::Cursor => Request::SeekCurrent(self.file),
            TransferStage::Move { .. } => self.transfer(),
            TransferStage::Restore { cursor, .. } => Request::SeekStart {
                file: self.file,
                offset: cursor,
            },
        }
    }

    open spec fn after(self, reply: Reply) -> Outcome<Self, usize> {
        match (self.stage, reply) {
            (TransferStage::Cursor, Reply::Position(Ok(cursor))) => Outcome::Continue(
                TransferAt { stage: TransferStage::Move { cursor }, ..self },
            ),
            (TransferStage::Cursor, Reply::Position(Err(error))) => Outcome::Done(
                Err(Error::Io(error)),
            ),
            (TransferStage::Move { cursor }, Reply::Moved(Ok(moved))) => Outcome::Continue(
                TransferAt { stage: TransferStage::Restore { cursor, moved }, ..self },
            ),
            (TransferStage::Move { .. }, Reply::Moved(Err(error))) => Outcome::Done(
                Err(Error::Io(error)),
            ),
            (TransferStage::Restore { moved, .. }, Reply::Position(Ok(_))) => Outcome::Done(
                Ok(moved),
            ),
            (TransferStage::Restore { .. }, Reply::Position(Err(error))) => Outcome::Done(
                Err(Error::Io(error)),
            ),
            _ => Outcome::Continue(self),
        }
    }

    proof fn other_replies_change_nothing(self, reply: Reply) {
    }

    fn request(&self) -> Request<String> {
        match self.stage {
            TransferStage::Cursor => Request::SeekCurrent(self.file),
            TransferStage::Move { .. } => match self.direction {
                Direction::Read => Request::SeekRead { file: self.file, offset: self.offset },
                Direction::Write => Request::SeekWrite { file: self.file, offset: self.offset },
            },
            TransferStage::Restore { cursor, .. } => Request::SeekStart {
                file: self.file,
                offset: cursor,
            },
        }
    }

    fn resume(self, reply: Reply) -> Outcome<Self, usize> {
        match (self.stage, reply) {
            (TransferStage::Cursor, Reply::Position(Ok(cursor))) => Outcome::Continue(
                TransferAt { stage: TransferStage::Move { cursor }, ..self },
            ),
            (TransferStage::Move { cursor }, Reply::Moved(Ok(moved))) => Outcome::Continue(
                TransferAt { stage: TransferStage::Restore { cursor, moved }, ..self },
            ),
            (TransferStage::Restore { moved, .. }, Reply::Position(Ok(_))) => Outcome::Done(
                Ok(moved),
            ),
            (
                TransferStage::Cursor | TransferStage::Restore { .. },
                Reply::Position(Err(error)),
            ) => Outcome::Done(Err(Error::Io(error))),
            (TransferStage::Move { .. }, Reply::Moved(Err(error))) => Outcome::Done(
                Err(Error::Io(error)),
            ),
            _ => Outcome::Continue(self),
        }
    }
}

/// The transfer before its first request.
pub open spec fn spec_transfer_at(
    file: Handle,
    direction: Direction,
    offset: FileSize,
) -> TransferAt {
    TransferAt { file, direction, offset, stage: TransferStage::Cursor }
}

/// Reads from an offset of a file into the guest's buffer.
pub fn read_at(file: Handle, offset: u64) -> (call: TransferAt)
    ensures
        call == spec_transfer_at(file, Direction::Read, offset),
        forall|host: Host, n: nat| #[trigger]
            host::run(call, host, n, 3) == Some(
                transfer_at_result(file, Direction::Read, offset, host, n),
            ),
{
    let call = TransferAt {
        file,
        direction: Direction::Read,
        offset,
        stage: TransferStage::Cursor,
    };
    proof {
        assert forall|host: Host, n: nat| #[trigger]
            host::run(call, host, n, 3) == Some(
                transfer_at_result(file, Direction::Read, offset, host, n),
            ) by {
            transfer_at_ends(file, Direction::Read, offset, host, n);
        }
    }
    call
}

/// Writes the guest's buffer at an offset of a file.
pub fn write_at(file: Handle, offset: u64) -> (call: TransferAt)
    ensures
        call == spec_transfer_at(file, Direction::Write, offset),
        forall|host: Host, n: nat| #[trigger]
            host::run(call, host, n, 3) == Some(
                transfer_at_result(file, Direction::Write, offset, host, n),
            ),
{
    let call = TransferAt {
        file,
        direction: Direction::Write,
        offset,
        stage: TransferStage::Cursor,
    };
    proof {
        assert forall|host: Host, n: nat| #[trigger]
            host::run(call, host, n, 3) == Some(
                transfer_at_result(file, Direction::Write, offset, host, n),
            ) by {
            transfer_at_ends(file, Direction::Write, offset, host, n);
        }
    }
    call
}

/// Reads from an offset of a file and leaves its cursor where it was. On every host
/// this ends after at most three replies, with [`transfer_at_result`].
pub fn fd_pread(file: Handle, offset: FileSize) -> (call: TransferAt)
    ensures
        call == spec_transfer_at(file, Direction::Read, offset),
        forall|host: Host, n: nat| #[trigger]
            host::run(call, host, n, 3) == Some(
                transfer_at_result(file, Direction::Read, offset, host, n),
            ),
{
    read_at(file, offset)
}

/// Writes at an offset of a file and leaves its cursor where it was. On every host
/// this ends after at most three replies, with [`transfer_at_result`].
pub fn fd_pwrite(file: Handle, offset: FileSize) -> (call: TransferAt)
    ensures
        call == spec_transfer_at(file, Direction::Write, offset),
        forall|host: Host, n: nat| #[trigger]
            host::run(call, host, n, 3) == Some(
                transfer_at_result(file, Direction::Write, offset, host, n),
            ),
{
    write_at(file, offset)
}

/// What a transfer returns on a host: how many bytes were moved.
pub open spec fn transfer_at_result(
    file: Handle,
    direction: Direction,
    offset: FileSize,
    host: Host,
    n: nat,
) -> Result<usize, Error> {
    let cursor = (host.cursor)(n, file);
    let moved = transfer_moved(file, direction, offset, host, n + 1);
    let restored = (host.seek_start)(n + 2, file, cursor->Ok_0);
    if cursor is Err {
        Err(Error::Io(cursor->Err_0))
    } else if moved is Err {
        Err(Error::Io(moved->Err_0))
    } else if restored is Err {
        Err(Error::Io(restored->Err_0))
    } else {
        Ok(moved->Ok_0)
    }
}

/// On every host `fd_pread` and `fd_pwrite` end after at most three replies, with
/// their result.
pub proof fn transfer_at_ends(
    file: Handle,
    direction: Direction,
    offset: FileSize,
    host: Host,
    n: nat,
)
    ensures
        host::run(spec_transfer_at(file, direction, offset), host, n, 3) == Some(
            transfer_at_result(file, direction, offset, host, n),
        ),
{
    reveal_with_fuel(host::run, 4);
}

/// What a host says of the bytes that a transfer moves.
pub open spec fn transfer_moved(
    file: Handle,
    direction: Direction,
    offset: FileSize,
    host: Host,
    n: nat,
) -> Result<usize, OsError> {
    match direction {
        Direction::Read => (host.seek_read)(n, file, offset),
        Direction::Write => (host.seek_write)(n, file, offset),
    }
}

/// Once bytes were moved, the last thing asked for is that the cursor go back to
/// where it was before. In particular this holds of every transfer that succeeds.
pub proof fn the_cursor_is_put_back(
    file: Handle,
    direction: Direction,
    offset: FileSize,
    host: Host,
    n: nat,
)
    ensures
        transfer_at_result(file, direction, offset, host, n) is Ok ==> {
            &&& (host.cursor)(n, file) is Ok
            &&& transfer_moved(file, direction, offset, host, n + 1) is Ok
        },
        (host.cursor)(n, file) is Ok && transfer_moved(file, direction, offset, host, n + 1) is Ok
            ==> host::requests(spec_transfer_at(file, direction, offset), host, n, 3) == seq![
            Request::<Seq<char>>::SeekCurrent(file),
            spec_transfer_at(file, direction, offset).transfer(),
            Request::<Seq<char>>::SeekStart { file, offset: (host.cursor)(n, file)->Ok_0 },
        ],
{
    reveal_with_fuel(host::requests, 4);
}

/// A transfer moves bytes at the offset that it was given, and its result is how many.
/// It asks first where the cursor is and last that the cursor go back there. The first of
/// the three that fails is the result, and nothing is asked for after it.
pub proof fn bytes_are_moved_at_the_offset(
    file: Handle,
    direction: Direction,
    offset: FileSize,
    host: Host,
    n: nat,
)
    ensures
        ({
            let call = spec_transfer_at(file, direction, offset);
            let made = host::requests(call, host, n, 3);
            let result = host::run(call, host, n, 3);
            let moved = match direction {
                Direction::Read => (host.seek_read)(n + 1, file, offset),
                Direction::Write => (host.seek_write)(n + 1, file, offset),
            };
            &&& made[0] == Request::<Seq<char>>::SeekCurrent(file)
            &&& match (host.cursor)(n, file) {
                Err(error) => {
                    &&& made.len() == 1
                    &&& result == Some(Err::<usize, Error>(Error::Io(error)))
                },
                Ok(cursor) => {
                    &&& direction is Read ==> made[1] == Request::<Seq<char>>::SeekRead {
                        file,
                        offset,
                    }
                    &&& direction is Write ==> made[1] == Request::<Seq<char>>::SeekWrite {
                        file,
                        offset,
                    }
                    &&& match moved {
                        Err(error) => {
                            &&& made.len() == 2
                            &&& result == Some(Err::<usize, Error>(Error::Io(error)))
                        },
                        Ok(count) => {
                            &&& made.len() == 3
                            &&& made[2] == Request::<Seq<char>>::SeekStart {
                                file,
                                offset: cursor,
                            }
                            &&& match (host.seek_start)(n + 2, file, cursor) {
                                Err(error) => result == Some(
                                    Err::<usize, Error>(Error::Io(error)),
                                ),
                                Ok(_) => result == Some(Ok::<usize, Error>(count)),
                            }
                        },
                    }
                },
            }
        }),
{
    reveal_with_fuel(host::run, 4);
    reveal_with_fuel(host::requests, 4);
}

/// Every request of `fd_pread` and `fd_pwrite` finds its handle ready.
pub proof fn transfer_at_finds_ready(
    file: Handle,
    direction: Direction,
    offset: FileSize,
    host: Host,
    n: nat,
)
    ensures
        host::finds_ready(
            spec_transfer_at(file, direction, offset),
            host,
            n,
            3,
            host::ready_with(set![file]),
        ),
{
    reveal_with_fuel(host::finds_ready, 4);
}

} // verus!
