//! Errors: what the operating system reports, and what a hostcall returns.
use vstd::prelude::*;

verus! {

pub const ERROR_SUCCESS: u32 = 0;

pub const ERROR_FILE_NOT_FOUND: u32 = 2;

pub const ERROR_PATH_NOT_FOUND: u32 = 3;

pub const ERROR_TOO_MANY_OPEN_FILES: u32 = 4;

pub const ERROR_ACCESS_DENIED: u32 = 5;

pub const ERROR_INVALID_HANDLE: u32 = 6;

pub const ERROR_NOT_ENOUGH_MEMORY: u32 = 8;

pub const ERROR_BAD_ENVIRONMENT: u32 = 10;

pub const ERROR_OUTOFMEMORY: u32 = 14;

pub const ERROR_NOT_READY: u32 = 21;

pub const ERROR_SHARING_VIOLATION: u32 = 32;

pub const ERROR_NOT_SUPPORTED: u32 = 50;

pub const ERROR_FILE_EXISTS: u32 = 80;

pub const ERROR_BROKEN_PIPE: u32 = 109;

pub const ERROR_BUFFER_OVERFLOW: u32 = 111;

pub const ERROR_INVALID_NAME: u32 = 123;

pub const ERROR_NEGATIVE_SEEK: u32 = 131;

pub const ERROR_DIR_NOT_EMPTY: u32 = 145;

pub const ERROR_LABEL_TOO_LONG: u32 = 154;

pub const ERROR_BUSY: u32 = 170;

pub const ERROR_ALREADY_EXISTS: u32 = 183;

pub const ERROR_DIRECTORY: u32 = 267;

pub const ERROR_PRIVILEGE_NOT_HELD: u32 = 1314;

pub const ERROR_NOT_A_REPARSE_POINT: u32 = 4390;

/// Stands for every Windows error that has no name here.
pub const UNKNOWN_ERROR: u32 = 0xffff_ffff;

/// The WASI error numbers that the hostcalls decide on themselves.
#[derive(Clone, Copy, Debug, PartialEq, Eq)]
pub enum WasiError {
    EEXIST,
    EILSEQ,
    EINVAL,
    EIO,
    EISDIR,
    ELOOP,
    ENOTCAPABLE,
    ENOTDIR,
    ENOTSUP,
}

/// A Windows error, by its code.
#[derive(Clone, Copy, Debug, PartialEq, Eq)]
pub struct WinError {
    pub code: u32,
}

/// The code of a Windows error that has a name. The names are those of `winx`, which
/// has none of them but on Windows.
pub open spec fn has_name(code: u32) -> bool {
    ||| code == ERROR_SUCCESS
    ||| code == ERROR_FILE_NOT_FOUND
    ||| code == ERROR_PATH_NOT_FOUND
    ||| code == ERROR_TOO_MANY_OPEN_FILES
    ||| code == ERROR_ACCESS_DENIED
    ||| code == ERROR_INVALID_HANDLE
    ||| code == ERROR_NOT_ENOUGH_MEMORY
    ||| code == ERROR_BAD_ENVIRONMENT
    ||| code == ERROR_OUTOFMEMORY
    ||| code == ERROR_NOT_READY
    ||| code == ERROR_SHARING_VIOLATION
    ||| code == ERROR_NOT_SUPPORTED
    ||| code == ERROR_FILE_EXISTS
    ||| code == ERROR_BROKEN_PIPE
    ||| code == ERROR_BUFFER_OVERFLOW
    ||| code == ERROR_INVALID_NAME
    ||| code == ERROR_NEGATIVE_SEEK
    ||| code == ERROR_DIR_NOT_EMPTY
    ||| code == ERROR_LABEL_TOO_LONG
    ||| code == ERROR_BUSY
    ||| code == ERROR_ALREADY_EXISTS
    ||| code == ERROR_DIRECTORY
    ||| code == ERROR_PRIVILEGE_NOT_HELD
    ||| code == ERROR_NOT_A_REPARSE_POINT
}

impl WinError {
    /// The Windows error with this code.
    pub open spec fn spec_from_u32(code: u32) -> WinError {
        WinError {
            code: if has_name(code) {
                code
            } else {
                UNKNOWN_ERROR
            },
        }
    }

    /// Names the Windows error with this code: one that has a name keeps its code,
    /// and all others are the same unknown error.
    pub fn from_u32(code: u32) -> (win: WinError)
        ensures
            win == WinError::spec_from_u32(code),
    {
        if code == ERROR_SUCCESS
            || code == ERROR_FILE_NOT_FOUND
            || code == ERROR_PATH_NOT_FOUND
            || code == ERROR_TOO_MANY_OPEN_FILES
            || code == ERROR_ACCESS_DENIED
            || code == ERROR_INVALID_HANDLE
            || code == ERROR_NOT_ENOUGH_MEMORY
            || code == ERROR_BAD_ENVIRONMENT
            || code == ERROR_OUTOFMEMORY
            || code == ERROR_NOT_READY
            || code == ERROR_SHARING_VIOLATION
            || code == ERROR_NOT_SUPPORTED
            || code == ERROR_FILE_EXISTS
            || code == ERROR_BROKEN_PIPE
            || code == ERROR_BUFFER_OVERFLOW
            || code == ERROR_INVALID_NAME
            || code == ERROR_NEGATIVE_SEEK
            || code == ERROR_DIR_NOT_EMPTY
            || code == ERROR_LABEL_TOO_LONG
            || code == ERROR_BUSY
            || code == ERROR_ALREADY_EXISTS
            || code == ERROR_DIRECTORY
            || code == ERROR_PRIVILEGE_NOT_HELD
            || code == ERROR_NOT_A_REPARSE_POINT {
            WinError { code }
        } else {
            WinError { code: UNKNOWN_ERROR }
        }
    }
}

/// Of the errors that the hostcalls look for, each has a name, and no other code is
/// taken for it.
pub proof fn errors_looked_for_are_told_apart(code: u32)
    ensures
        WinError::spec_from_u32(code).code == ERROR_FILE_NOT_FOUND <==> code
            == ERROR_FILE_NOT_FOUND,
        WinError::spec_from_u32(code).code == ERROR_ACCESS_DENIED <==> code == ERROR_ACCESS_DENIED,
        WinError::spec_from_u32(code).code == ERROR_INVALID_NAME <==> code == ERROR_INVALID_NAME,
        WinError::spec_from_u32(code).code == ERROR_NOT_A_REPARSE_POINT <==> code
            == ERROR_NOT_A_REPARSE_POINT,
{
}

/// A failed input or output operation: the number that the operating system
/// gave for it, or none where the failure did not come from there.
#[derive(Clone, Copy, Debug, PartialEq, Eq)]
pub struct OsError {
    pub raw_os_error: Option<i32>,
}

impl OsError {
    /// The Windows error in this failure.
    pub open spec fn spec_win_error(self) -> Option<WinError> {
        match self.raw_os_error {
            Some(number) => Some(WinError::spec_from_u32(number as u32)),
            None => None,
        }
    }

    /// Reads the operating system's number as the code of a Windows error. A
    /// failure without a number gives none.
    pub fn win_error(self) -> (win: Option<WinError>)
        ensures
            win == self.spec_win_error(),
    {
        match self.raw_os_error {
            Some(number) => {
                let code: u32 = #[verifier::truncate]
                (number as u32);
                Some(WinError::from_u32(code))
            },
            None => None,
        }
    }
}

/// A failure comes with the Windows error whose code is the operating system's number,
/// if that is one of those that have a name. Every other number, a negative one
/// among them, is the same unknown error, and a failure without a number is none.
pub proof fn a_failure_keeps_its_number_if_it_has_a_name(error: OsError)
    ensures
        error.spec_win_error() is Some <==> error.raw_os_error is Some,
        error.raw_os_error matches Some(number) ==> {
            let named = {
                ||| number == 0 || number == 2 || number == 3 || number == 4 || number == 5
                ||| number == 6 || number == 8 || number == 10 || number == 14 || number == 21
                ||| number == 32 || number == 50 || number == 80 || number == 109
                ||| number == 111 || number == 123 || number == 131 || number == 145
                ||| number == 154 || number == 170 || number == 183 || number == 267
                ||| number == 1314 || number == 4390
            };
            &&& named ==> error.spec_win_error()->Some_0.code == number
            &&& !named ==> error.spec_win_error()->Some_0.code == 0xffff_ffff
        },
{
    if let Some(number) = error.raw_os_error {
        assert(number >= 0 ==> number as u32 == number);
        assert(number < 0 ==> number as u32 >= 0x8000_0000u32) by (bit_vector);
    }
}

/// The codes of the errors that the hostcalls look for are those of Windows.
pub proof fn errors_looked_for_have_these_codes()
    ensures
        ERROR_FILE_NOT_FOUND == 2,
        ERROR_ACCESS_DENIED == 5,
        ERROR_INVALID_NAME == 123,
        ERROR_NOT_A_REPARSE_POINT == 4390,
{
}

/// The error of a hostcall.
#[derive(Clone, Copy, Debug, PartialEq, Eq)]
pub enum Error {
    /// The hostcall refused, or gave up, for a reason of its own.
    Wasi(WasiError),
    /// An operation failed and nothing more was made of it.
    Io(OsError),
    /// An operation failed with a Windows error that the hostcall looked at.
    Winx(WinError),
    /// A number does not fit its machine type.
    TryFromInt,
}

} // verus!
