//! The trusted boundary to the operating system. Every function here is a
//! thin wrapper over one call of the `nix`, `rlimit` or `rand` crate; Verus
//! believes the stated contracts and verifies nothing in the bodies. All
//! decisions — which flags, which order, which paths — are taken by the
//! verified callers and handed in as plain values.

use vstd::prelude::*;

verus! {

// Flag and mode values of the Linux ABI on x86_64, as mount(2), open(2) and
// stat(2) define them. The verified callers compose these; the wrappers below
// only forward the composed bits.
pub const MS_RDONLY: u64 = 0x1;

pub const MS_REMOUNT: u64 = 0x20;

pub const MS_BIND: u64 = 0x1000;

pub const MS_REC: u64 = 0x4000;

pub const MS_PRIVATE: u64 = 0x40000;

pub const O_RDONLY: i32 = 0x0;

pub const O_WRONLY: i32 = 0x1;

pub const O_CREAT: i32 = 0x40;

pub const O_TRUNC: i32 = 0x200;

pub const O_APPEND: i32 = 0x400;

pub const O_CLOEXEC: i32 = 0x80000;

pub const MODE_RW_R_R: u32 = 0o644;

pub const MODE_RWX_R_R: u32 = 0o755;

pub const S_IFMT: u32 = 0o170000;

pub const S_IFDIR: u32 = 0o040000;

pub const SIGSTOP: i32 = 19;

pub const SIGKILL: i32 = 9;

/// Relies on `nix::unistd::mkdir`: creates the directory at `path` with the
/// given mode bits, failing with the raw errno otherwise.
#[verifier::external_body]
pub(crate) fn sys_mkdir(path: &str, mode: u32) -> (r: Result<(), i32>) {
    match nix::unistd::mkdir(path, nix::sys::stat::Mode::from_bits_truncate(mode)) {
        Ok(()) => Ok(()),
        Err(e) => Err(e as i32),
    }
}

/// Relies on `nix::unistd::access` with `F_OK`: reports whether `path` names
/// an existing file or directory.
#[verifier::external_body]
pub(crate) fn sys_path_exists(path: &str) -> (r: bool) {
    nix::unistd::access(path, nix::unistd::AccessFlags::F_OK).is_ok()
}

/// Relies on `nix::unistd::access` with `F_OK`: succeeds when `path` is
/// accessible, else carries the raw errno access(2) reported.
#[verifier::external_body]
pub(crate) fn sys_access_ok(path: &str) -> (r: Result<(), i32>) {
    match nix::unistd::access(path, nix::unistd::AccessFlags::F_OK) {
        Ok(()) => Ok(()),
        Err(e) => Err(e as i32),
    }
}

/// Relies on `nix::unistd::unlinkat` with `AT_REMOVEDIR`, that is rmdir(2):
/// removes the directory at `path`.
#[verifier::external_body]
pub(crate) fn sys_rmdir(path: &str) -> (r: Result<(), i32>) {
    match nix::unistd::unlinkat(None, path, nix::unistd::UnlinkatFlags::RemoveDir) {
        Ok(()) => Ok(()),
        Err(e) => Err(e as i32),
    }
}

/// Relies on `nix::fcntl::open`: opens `path` with exactly the given flag and
/// mode bits and returns the new descriptor, which open(2) documents as
/// nonnegative.
#[verifier::external_body]
pub(crate) fn sys_open(path: &str, flags: i32, mode: u32) -> (r: Result<i32, i32>)
    ensures
        r matches Ok(fd) ==> fd >= 0,
{
    match nix::fcntl::open(
        path,
        nix::fcntl::OFlag::from_bits_truncate(flags),
        nix::sys::stat::Mode::from_bits_truncate(mode),
    ) {
        Ok(fd) => Ok(fd),
        Err(e) => Err(e as i32),
    }
}

/// Relies on `nix::unistd::close`: closes the descriptor.
#[verifier::external_body]
pub(crate) fn sys_close(fd: i32) -> (r: Result<(), i32>) {
    match nix::unistd::close(fd) {
        Ok(()) => Ok(()),
        Err(e) => Err(e as i32),
    }
}

/// Relies on `nix::unistd::dup2`: makes `newfd` refer to the same open file
/// as `oldfd`; dup2(2) documents that the returned descriptor equals `newfd`.
#[verifier::external_body]
pub(crate) fn sys_dup2(oldfd: i32, newfd: i32) -> (r: Result<i32, i32>)
    ensures
        r matches Ok(fd) ==> fd == newfd,
{
    match nix::unistd::dup2(oldfd, newfd) {
        Ok(fd) => Ok(fd),
        Err(e) => Err(e as i32),
    }
}

/// Relies on `nix::unistd::write`: writes a prefix of `buf` to `fd`;
/// write(2) documents that the count returned never exceeds the length
/// handed in.
#[verifier::external_body]
pub(crate) fn sys_write(fd: i32, buf: &[u8]) -> (r: Result<usize, i32>)
    ensures
        r matches Ok(n) ==> n <= buf@.len(),
{
    match nix::unistd::write(fd, buf) {
        Ok(n) => Ok(n),
        Err(e) => Err(e as i32),
    }
}

/// Relies on `nix::unistd::read`: reads at most `cap` bytes from `fd`;
/// read(2) documents that the count returned never exceeds the buffer
/// length, and a zero count means end of file.
#[verifier::external_body]
pub(crate) fn sys_read_chunk(fd: i32, cap: usize) -> (r: Result<Vec<u8>, i32>)
    ensures
        r matches Ok(v) ==> v@.len() <= cap,
{
    let mut buf = vec![0u8; cap];
    match nix::unistd::read(fd, &mut buf) {
        Ok(n) => {
            buf.truncate(n);
            Ok(buf)
        },
        Err(e) => Err(e as i32),
    }
}

/// Relies on `nix::sys::socket::socketpair` with `AF_UNIX`, `SOCK_STREAM`
/// and `SOCK_CLOEXEC`: returns the (read end, write end) of a fresh
/// connected pair whose descriptors are nonnegative.
#[verifier::external_body]
pub(crate) fn sys_socketpair_stream() -> (r: Result<(i32, i32), i32>)
    ensures
        r matches Ok(p) ==> p.0 >= 0 && p.1 >= 0,
{
    match nix::sys::socket::socketpair(
        nix::sys::socket::AddressFamily::Unix,
        nix::sys::socket::SockType::Stream,
        None,
        nix::sys::socket::SockFlag::SOCK_CLOEXEC,
    ) {
        Ok((a, b)) => Ok((a, b)),
        Err(e) => Err(e as i32),
    }
}

/// Relies on `nix::mount::mount`: one mount(2) call with the given
/// source, target, filesystem type and flag word. The conversion keeps
/// every defined `MsFlags` bit; the `MS_*` constants above are all
/// defined there, so no caller of this library loses a bit to it.
#[verifier::external_body]
pub(crate) fn sys_mount(
    src: Option<&str>,
    dst: &str,
    fstype: Option<&str>,
    flags: u64,
) -> (r: Result<(), i32>) {
    match nix::mount::mount(
        src,
        dst,
        fstype,
        nix::mount::MsFlags::from_bits_truncate(flags),
        None::<&str>,
    ) {
        Ok(()) => Ok(()),
        Err(e) => Err(e as i32),
    }
}

/// Relies on `nix::unistd::chroot`: changes the root directory to `path`.
#[verifier::external_body]
pub(crate) fn sys_chroot(path: &str) -> (r: Result<(), i32>) {
    match nix::unistd::chroot(path) {
        Ok(()) => Ok(()),
        Err(e) => Err(e as i32),
    }
}

/// Relies on `nix::unistd::chdir`: changes the working directory to `path`.
#[verifier::external_body]
pub(crate) fn sys_chdir(path: &str) -> (r: Result<(), i32>) {
    match nix::unistd::chdir(path) {
        Ok(()) => Ok(()),
        Err(e) => Err(e as i32),
    }
}

/// Relies on `nix::sys::stat::stat`: returns the `st_mode` bits of `path`.
#[verifier::external_body]
pub(crate) fn sys_stat_mode(path: &str) -> (r: Result<u32, i32>) {
    match nix::sys::stat::stat(path) {
        Ok(st) => Ok(st.st_mode as u32),
        Err(e) => Err(e as i32),
    }
}

/// Relies on `nix::sys::signal::kill`: sends the signal with the given
/// number to the process `pid`.
#[verifier::external_body]
pub(crate) fn sys_kill(pid: i32, sig: i32) -> (r: Result<(), i32>) {
    let signal = match nix::sys::signal::Signal::try_from(sig) {
        Ok(s) => s,
        Err(e) => return Err(e as i32),
    };
    match nix::sys::signal::kill(nix::unistd::Pid::from_raw(pid), signal) {
        Ok(()) => Ok(()),
        Err(e) => Err(e as i32),
    }
}

/// What one wait on the child reported.
pub enum WaitEvent {
    /// The child exited on its own with this code.
    Exited(i32),
    /// The child was killed by the signal with this number.
    Signaled(i32),
    /// Any other wait report; a blocking wait on a terminated child does
    /// not produce one.
    Other,
}

/// Relies on `nix::sys::wait::waitpid` without flags: blocks until the
/// child terminates and reports how, one variant per `WaitStatus` case.
#[verifier::external_body]
pub(crate) fn sys_waitpid(pid: i32) -> (r: Result<WaitEvent, i32>) {
    match nix::sys::wait::waitpid(nix::unistd::Pid::from_raw(pid), None) {
        Ok(nix::sys::wait::WaitStatus::Exited(_, code)) => Ok(WaitEvent::Exited(code)),
        Ok(nix::sys::wait::WaitStatus::Signaled(_, sig, _)) => Ok(
            WaitEvent::Signaled(sig as i32),
        ),
        Ok(_) => Ok(WaitEvent::Other),
        Err(e) => Err(e as i32),
    }
}

/// Relies on `rlimit::Resource::CPU.set`: sets soft and hard RLIMIT_CPU,
/// in seconds.
#[verifier::external_body]
pub(crate) fn sys_setrlimit_cpu(limit: u64) -> (r: Result<(), i32>) {
    match rlimit::Resource::CPU.set(limit, limit) {
        Ok(()) => Ok(()),
        Err(e) => Err(e.raw_os_error().unwrap_or(0)),
    }
}

/// Relies on `rlimit::Resource::AS.set`: sets soft and hard RLIMIT_AS,
/// in bytes.
#[verifier::external_body]
pub(crate) fn sys_setrlimit_as(limit: u64) -> (r: Result<(), i32>) {
    match rlimit::Resource::AS.set(limit, limit) {
        Ok(()) => Ok(()),
        Err(e) => Err(e.raw_os_error().unwrap_or(0)),
    }
}

/// Relies on `rlimit::Resource::DATA.set`: sets soft and hard RLIMIT_DATA,
/// in bytes.
#[verifier::external_body]
pub(crate) fn sys_setrlimit_data(limit: u64) -> (r: Result<(), i32>) {
    match rlimit::Resource::DATA.set(limit, limit) {
        Ok(()) => Ok(()),
        Err(e) => Err(e.raw_os_error().unwrap_or(0)),
    }
}

/// Relies on `rlimit::Resource::FSIZE.set`: sets soft and hard
/// RLIMIT_FSIZE, in bytes.
#[verifier::external_body]
pub(crate) fn sys_setrlimit_fsize(limit: u64) -> (r: Result<(), i32>) {
    match rlimit::Resource::FSIZE.set(limit, limit) {
        Ok(()) => Ok(()),
        Err(e) => Err(e.raw_os_error().unwrap_or(0)),
    }
}

/// Relies on `rlimit::Resource::NPROC.set`: sets soft and hard
/// RLIMIT_NPROC, a process count.
#[verifier::external_body]
pub(crate) fn sys_setrlimit_nproc(limit: u64) -> (r: Result<(), i32>) {
    match rlimit::Resource::NPROC.set(limit, limit) {
        Ok(()) => Ok(()),
        Err(e) => Err(e.raw_os_error().unwrap_or(0)),
    }
}

/// Relies on `rlimit::Resource::STACK.set`: sets soft and hard
/// RLIMIT_STACK, in bytes.
#[verifier::external_body]
pub(crate) fn sys_setrlimit_stack(limit: u64) -> (r: Result<(), i32>) {
    match rlimit::Resource::STACK.set(limit, limit) {
        Ok(()) => Ok(()),
        Err(e) => Err(e.raw_os_error().unwrap_or(0)),
    }
}

/// Relies on `nix::errno::Errno::last`: the calling thread's current
/// errno; nothing is promised of it.
#[verifier::external_body]
pub(crate) fn sys_last_errno() -> (r: i32) {
    nix::errno::Errno::last() as i32
}

/// Relies on `rand::random`: an arbitrary value; nothing is promised of it.
pub assume_specification<T>[ rand::random::<T> ]() -> (r: T)
    where
        rand::distributions::Standard: rand::distributions::Distribution<T>,
;

} // verus!
