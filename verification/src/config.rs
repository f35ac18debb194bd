//! The data carried across the sandbox boundary: the configuration a caller
//! hands in, the output record a run hands back, and the validation that every
//! run performs before it touches the operating system.

use vstd::prelude::*;

verus! {

/// A path is absolute when it starts with `/`.
pub open spec fn is_abs(s: Seq<char>) -> bool {
    s.len() > 0 && s[0] == '/'
}

/// One bind mount: make `src` visible at `dst`. Both paths must be absolute;
/// `dst` is interpreted under the chroot when one is configured.
#[derive(Debug, Clone, PartialEq, Eq)]
pub struct BindMount {
    pub src: String,
    pub dst: String,
}

impl BindMount {
    /// A copy with the same two paths.
    pub fn duplicate(&self) -> (r: Self)
        ensures
            r.src@ == self.src@,
            r.dst@ == self.dst@,
    {
        BindMount { src: self.src.clone(), dst: self.dst.clone() }
    }

    /// A bind mount whose destination equals its source.
    pub fn new_same(src: String) -> (r: Self)
        ensures
            r.src@ == src@,
            r.dst@ == src@,
    {
        Self { dst: src.clone(), src }
    }

    /// Parse `src:dst` at the first colon; a string without one binds the
    /// path to itself. An empty source or destination is rejected.
    pub fn parse(s: &str) -> (r: Result<Self, ConfigError>)
        ensures
            (forall|j: int| 0 <= j < s@.len() ==> s@[j] != ':') ==> (r matches Ok(bm) && bm.src@
                == s@ && bm.dst@ == s@),
            forall|i: int|
                (0 <= i < s@.len() && s@[i] == ':' && (forall|j: int| 0 <= j < i ==> s@[j] != ':'))
                    ==> if i == 0 || i == s@.len() - 1 {
                    r == Err::<BindMount, ConfigError>(ConfigError::BindMountFormat)
                } else {
                    (r matches Ok(bm) && bm.src@ == s@.subrange(0, i) && bm.dst@ == s@.subrange(
                        i + 1,
                        s@.len() as int,
                    ))
                },
    {
        let n = s.unicode_len();
        match crate::text::find_char(s, ':') {
            None => {
                let owned = s.to_owned();
                Ok(BindMount { src: owned.clone(), dst: owned })
            },
            Some(i) => {
                if i == 0 || i + 1 == n {
                    Err(ConfigError::BindMountFormat)
                } else {
                    let src = s.substring_char(0, i).to_owned();
                    let dst = s.substring_char(i + 1, n).to_owned();
                    Ok(BindMount { src, dst })
                }
            },
        }
    }
}

/// Everything a single run needs to know. Immutable once the run starts.
#[derive(Debug, Clone)]
pub struct SandboxConfig {
    /// Path of the binary to execute, interpreted after the chroot (if any).
    pub bin: String,
    /// Arguments handed to the binary; `argv[0]` is `bin` itself.
    pub args: Vec<String>,
    /// Environment entries: `NAME=value` is literal, a bare `NAME` asks to
    /// inherit that variable from the calling process when it is present.
    pub env: Vec<String>,
    /// Directory to chroot into, absolute.
    pub chroot: Option<String>,
    /// User id to drop to before `execve`.
    pub uid: Option<u32>,
    /// Group id to drop to before `execve`.
    pub gid: Option<u32>,
    /// Path opened read-only and placed on fd 0.
    pub stdin: Option<String>,
    /// Path opened write-truncate and placed on fd 1.
    pub stdout: Option<String>,
    /// Path opened write-truncate and placed on fd 2.
    pub stderr: Option<String>,
    /// Pre-opened descriptor for fd 0; conflicts with `stdin`.
    pub stdin_fd: Option<i32>,
    /// Pre-opened descriptor for fd 1; conflicts with `stdout`.
    pub stdout_fd: Option<i32>,
    /// Pre-opened descriptor for fd 2; conflicts with `stderr`.
    pub stderr_fd: Option<i32>,
    /// Wall-clock limit in milliseconds; the child is killed when it expires.
    pub real_time_limit: Option<u64>,
    /// RLIMIT_CPU, in seconds.
    pub rlimit_cpu: Option<u32>,
    /// RLIMIT_AS, in bytes.
    pub rlimit_as: Option<u64>,
    /// RLIMIT_DATA, in bytes.
    pub rlimit_data: Option<u64>,
    /// RLIMIT_FSIZE, in bytes.
    pub rlimit_fsize: Option<u64>,
    /// Cgroup memory limit, in bytes.
    pub cg_limit_memory: Option<u64>,
    /// Cgroup pids limit: largest number of live tasks in the group.
    pub cg_limit_max_pids: Option<u32>,
    /// Read-write bind mounts, installed before the read-only ones.
    pub bindmount_rw: Vec<BindMount>,
    /// Read-only bind mounts, installed after the read-write ones.
    pub bindmount_ro: Vec<BindMount>,
    /// Mount a fresh `proc` at this path (under the chroot when set).
    pub mount_proc: Option<String>,
    /// Mount a fresh `tmpfs` at this path (under the chroot when set).
    pub mount_tmpfs: Option<String>,
    /// Scheduling priority for the child, in `[-20, 19]`.
    pub priority: Option<i8>,
    /// Install a filter that kills the IPC-object syscalls in the child.
    pub seccomp_forbid_ipc: bool,
}

impl SandboxConfig {
    /// The priority, when set, lies in `[-20, 19]`.
    pub open spec fn priority_ok(self) -> bool {
        self.priority matches Some(p) ==> -20 <= p && p <= 19
    }

    /// Every bind mount names absolute source and destination paths.
    pub open spec fn mounts_ok(self) -> bool {
        &&& forall|i: int|
            0 <= i < self.bindmount_rw@.len() ==> is_abs(
                (#[trigger] self.bindmount_rw@[i]).src@,
            ) && is_abs(self.bindmount_rw@[i].dst@)
        &&& forall|i: int|
            0 <= i < self.bindmount_ro@.len() ==> is_abs(
                (#[trigger] self.bindmount_ro@[i]).src@,
            ) && is_abs(self.bindmount_ro@[i].dst@)
    }

    /// The `proc` and `tmpfs` mount points, when set, are absolute.
    pub open spec fn special_mounts_ok(self) -> bool {
        &&& (self.mount_proc matches Some(p) ==> is_abs(p@))
        &&& (self.mount_tmpfs matches Some(p) ==> is_abs(p@))
    }

    /// The chroot directory, when set, is absolute.
    pub open spec fn chroot_ok(self) -> bool {
        self.chroot matches Some(p) ==> is_abs(p@)
    }

    /// For each standard stream, at most one of the path and the raw
    /// descriptor is set.
    pub open spec fn stdio_ok(self) -> bool {
        &&& !(self.stdin is Some && self.stdin_fd is Some)
        &&& !(self.stdout is Some && self.stdout_fd is Some)
        &&& !(self.stderr is Some && self.stderr_fd is Some)
    }

    /// A configuration the sandbox accepts: everything `validate` checks.
    pub open spec fn valid(self) -> bool {
        &&& self.priority_ok()
        &&& self.mounts_ok()
        &&& self.special_mounts_ok()
        &&& self.chroot_ok()
        &&& self.stdio_ok()
    }
}

/// Why a configuration was rejected before the run started.
#[derive(Debug, Clone, PartialEq, Eq, Structural)]
pub enum ConfigError {
    /// The priority lies outside `[-20, 19]`.
    PriorityOutOfRange,
    /// A bind mount source or destination is not absolute.
    MountPathNotAbsolute,
    /// A `proc` or `tmpfs` mount point is not absolute.
    SpecialMountNotAbsolute,
    /// The chroot directory is not absolute.
    ChrootNotAbsolute,
    /// A standard stream has both a path and a raw descriptor.
    StdioConflict,
    /// A bind mount argument has an empty source or destination.
    BindMountFormat,
}

/// True when the string starts with `/`.
fn starts_with_slash(s: &String) -> (r: bool)
    ensures
        r == is_abs(s@),
{
    if s.as_str().unicode_len() == 0 {
        false
    } else {
        let c = s.as_str().get_char(0);
        c == '/'
    }
}

/// Check one optional path for absoluteness.
fn opt_abs(p: &Option<String>) -> (r: bool)
    ensures
        r == (p matches Some(s) ==> is_abs(s@)),
{
    match p {
        Some(s) => starts_with_slash(s),
        None => true,
    }
}

/// True when every mount in the list has absolute source and destination.
fn mount_list_abs(mnts: &Vec<BindMount>) -> (r: bool)
    ensures
        r == forall|i: int|
            0 <= i < mnts@.len() ==> is_abs((#[trigger] mnts@[i]).src@) && is_abs(mnts@[i].dst@),
{
    let mut k: usize = 0;
    while k < mnts.len()
        invariant
            k <= mnts@.len(),
            forall|i: int|
                0 <= i < k ==> is_abs((#[trigger] mnts@[i]).src@) && is_abs(mnts@[i].dst@),
        decreases mnts@.len() - k,
    {
        if !starts_with_slash(&mnts[k].src) || !starts_with_slash(&mnts[k].dst) {
            return false;
        }
        k += 1;
    }
    true
}

/// Reject a malformed configuration before anything is forked or created.
///
/// The checks run in a fixed order, so the error names the first rule broken:
/// priority range, then bind-mount paths, then the `proc`/`tmpfs` mount
/// points, then the chroot path, then the stream path/descriptor conflicts.
pub fn validate(config: &SandboxConfig) -> (r: Result<(), ConfigError>)
    ensures
        r is Ok <==> config.valid(),
        r == Err::<(), ConfigError>(ConfigError::PriorityOutOfRange) <==> !config.priority_ok(),
        r == Err::<(), ConfigError>(ConfigError::MountPathNotAbsolute) <==> config.priority_ok()
            && !config.mounts_ok(),
        r == Err::<(), ConfigError>(ConfigError::SpecialMountNotAbsolute) <==> config.priority_ok()
            && config.mounts_ok() && !config.special_mounts_ok(),
        r == Err::<(), ConfigError>(ConfigError::ChrootNotAbsolute) <==> config.priority_ok()
            && config.mounts_ok() && config.special_mounts_ok() && !config.chroot_ok(),
        r == Err::<(), ConfigError>(ConfigError::StdioConflict) <==> config.priority_ok()
            && config.mounts_ok() && config.special_mounts_ok() && config.chroot_ok()
            && !config.stdio_ok(),
{
    if let Some(prio) = config.priority {
        if prio < -20 || prio > 19 {
            return Err(ConfigError::PriorityOutOfRange);
        }
    }
    if !mount_list_abs(&config.bindmount_rw) || !mount_list_abs(&config.bindmount_ro) {
        return Err(ConfigError::MountPathNotAbsolute);
    }
    if !opt_abs(&config.mount_proc) || !opt_abs(&config.mount_tmpfs) {
        return Err(ConfigError::SpecialMountNotAbsolute);
    }
    if !opt_abs(&config.chroot) {
        return Err(ConfigError::ChrootNotAbsolute);
    }
    if config.stdin.is_some() && config.stdin_fd.is_some() {
        return Err(ConfigError::StdioConflict);
    }
    if config.stdout.is_some() && config.stdout_fd.is_some() {
        return Err(ConfigError::StdioConflict);
    }
    if config.stderr.is_some() && config.stderr_fd.is_some() {
        return Err(ConfigError::StdioConflict);
    }
    Ok(())
}

/// What a completed run reports.
#[derive(Debug, Clone)]
pub struct SandboxOutput {
    /// Exit code; 0 when the target was killed by a signal.
    pub code: i32,
    /// Terminating signal; 0 when the target exited on its own.
    pub signal: i32,
    /// Wall-clock time of the run, in milliseconds.
    pub real_time: u64,
    /// System CPU time charged to the cgroup, in milliseconds.
    pub sys_time: u64,
    /// User CPU time charged to the cgroup, in milliseconds.
    pub user_time: u64,
    /// Peak resident memory of the cgroup, in kibibytes.
    pub memory: u64,
}

impl SandboxOutput {
    /// The target ran to completion and returned 0.
    pub fn is_success(&self) -> (r: bool)
        ensures
            r == (self.code == 0 && self.signal == 0),
    {
        self.code == 0 && self.signal == 0
    }
}

} // verus!
