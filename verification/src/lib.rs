//! File system hostcalls of a WASI host on Windows.
//!
//! WASI speaks of files as POSIX does. Windows differs in small things: a handle
//! has rights and not modes, a rename does not replace a directory, a link to a
//! directory is not a link to a file, a directory cannot be listed from the
//! middle. This crate decides, call by call, what to ask of Windows and what to
//! tell the guest. It touches no file itself: see [`host`] for how the two meet.
pub mod advice;
pub mod directory;
pub mod error;
pub mod fdstat;
pub mod host;
pub mod listing;
pub mod open;
pub mod path;
pub mod readdir;
pub mod readlink;
pub mod rename;
pub mod rights;
pub mod stat;
pub mod symlink;
pub mod transfer;
pub mod unlink;
pub mod wasi;
