# wasi_winfs

The file system hostcalls of a WASI host on Windows, verified with Verus.

A hostcall is a value with one request pending. A host performs the request and
resumes the hostcall with the reply, until it is done. So what is asked of Windows,
in which order, and what the guest is told are all decided in verified code, and
that code does no input or output.

- `src/host.rs` holds the requests, the replies and the trait that every hostcall
  implements. It also models a host, for the laws.
- `src/rights.rs` turns WASI flags into Windows access rights and flags.
- `src/open.rs`, `rename.rs`, `symlink.rs`, `unlink.rs`, `readlink.rs`,
  `directory.rs`, `stat.rs`, `fdstat.rs`, `transfer.rs`, `readdir.rs` and
  `advice.rs` hold the hostcalls. Each states what it returns on any host
  (`..._result`) and proves that it ends with that (`..._ends`), and that each of its
  requests finds its paths and handles ready (`..._finds_ready`).
- `src/listing.rs` proves what the listing of a directory gives as a whole.
- `app/` performs the requests with the standard library and, on Windows, `winx`.
  `winx` is empty on other systems, so the rights, the flags and the names of errors
  that the decisions rest on are constants of `src/`.
