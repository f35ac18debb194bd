//! Verified loops over the raw read and write wrappers: writing a whole
//! buffer, and reading a whole (small) kernel file.

use vstd::prelude::*;
use vstd::slice::slice_subrange;
use crate::sys;

verus! {

/// How many bytes one read call asks for.
pub const READ_CHUNK: usize = 4096;

/// How many read calls `read_all` is willing to make before it gives up;
/// the files this library reads are small kernel-generated ones.
pub const READ_ROUNDS: usize = 1024;

/// Errno used when a descriptor makes no progress.
pub const EIO: i32 = 5;

/// Errno used when a file is larger than `read_all` accepts.
pub const EFBIG: i32 = 27;

/// Write all of `buf` to `fd`, retrying on short writes.
pub(crate) fn write_all(fd: i32, buf: &[u8]) -> (r: Result<(), i32>) {
    let len = buf.len();
    let mut off: usize = 0;
    while off < len
        invariant
            len == buf@.len(),
            off <= len,
        decreases len - off,
    {
        let chunk = slice_subrange(buf, off, len);
        match sys::sys_write(fd, chunk) {
            Ok(n) => {
                if n == 0 {
                    return Err(EIO);
                }
                off += n;
            },
            Err(e) => {
                return Err(e);
            },
        }
    }
    Ok(())
}

/// Write all bytes of `s` to `fd`.
pub(crate) fn write_str_all(fd: i32, s: &str) -> (r: Result<(), i32>) {
    write_all(fd, s.as_bytes())
}

/// Read `fd` to end of file, at most `READ_ROUNDS * READ_CHUNK` bytes.
pub(crate) fn read_all(fd: i32) -> (r: Result<Vec<u8>, i32>) {
    let mut out: Vec<u8> = Vec::new();
    let mut rounds: usize = 0;
    while rounds < READ_ROUNDS
        invariant
            rounds <= READ_ROUNDS,
        decreases READ_ROUNDS - rounds,
    {
        let mut chunk = match sys::sys_read_chunk(fd, READ_CHUNK) {
            Ok(c) => c,
            Err(e) => {
                return Err(e);
            },
        };
        if chunk.len() == 0 {
            return Ok(out);
        }
        out.append(&mut chunk);
        rounds += 1;
    }
    Err(EFBIG)
}

/// Close `fd`, ignoring errors, as teardown paths do.
pub(crate) fn close_quiet(fd: i32) {
    let _ = sys::sys_close(fd);
}

} // verus!
