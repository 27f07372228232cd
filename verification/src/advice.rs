//! Hostcalls that need nothing of the operating system.
use crate::error::{Error, WasiError};
use crate::host::Handle;
use crate::path::PathGet;
use crate::wasi::{
    Advice, FileSize, __WASI_ADVICE_DONTNEED, __WASI_ADVICE_NOREUSE, __WASI_ADVICE_NORMAL,
    __WASI_ADVICE_RANDOM, __WASI_ADVICE_SEQUENTIAL, __WASI_ADVICE_WILLNEED,
};
use vstd::prelude::*;

verus! {

/// A kind of advice that WASI knows.
pub open spec fn is_advice(advice: Advice) -> bool {
    ||| advice == __WASI_ADVICE_DONTNEED
    ||| advice == __WASI_ADVICE_SEQUENTIAL
    ||| advice == __WASI_ADVICE_WILLNEED
    ||| advice == __WASI_ADVICE_NOREUSE
    ||| advice == __WASI_ADVICE_RANDOM
    ||| advice == __WASI_ADVICE_NORMAL
}

/// Takes advice on how a file will be used. Every kind that WASI knows is taken,
/// and nothing is made of it.
pub fn fd_advise(_file: Handle, advice: Advice, _offset: FileSize, _len: FileSize) -> (result:
    Result<(), Error>)
    ensures
        is_advice(advice) ==> result == Ok::<(), Error>(()),
        !is_advice(advice) ==> result == Err::<(), Error>(Error::Wasi(WasiError::EINVAL)),
        result is Ok <==> advice <= 5,
{
    if advice == __WASI_ADVICE_DONTNEED || advice == __WASI_ADVICE_SEQUENTIAL || advice
        == __WASI_ADVICE_WILLNEED || advice == __WASI_ADVICE_NOREUSE || advice
        == __WASI_ADVICE_RANDOM || advice == __WASI_ADVICE_NORMAL {
        Ok(())
    } else {
        Err(Error::Wasi(WasiError::EINVAL))
    }
}

/// The kinds of advice that WASI knows are the first six numbers, without a gap.
pub proof fn advice_has_no_gaps(advice: Advice)
    ensures
        is_advice(advice) <==> advice <= 5,
{
}

/// The name of a hostcall that this host does not have. There is no error that
/// stands for it: the host must not go on.
#[derive(Clone, Copy, Debug, PartialEq, Eq)]
pub struct NotImplemented {
    pub hostcall: &'static str,
}

/// Would create a hard link. This host has no hard links, whatever the paths are.
pub fn path_link(_resolved_old: PathGet, _resolved_new: PathGet) -> (missing: NotImplemented)
    ensures
        missing.hostcall@ == "path_link"@,
{
    NotImplemented { hostcall: "path_link" }
}

} // verus!
