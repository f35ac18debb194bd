//! The cgroup v1 handle: three controller directories under
//! `/sys/fs/cgroup/{cpu,memory,pids}/<name>`, created before the clone,
//! written and joined from inside the child, read and removed by the
//! supervisor after reaping.

use vstd::prelude::*;
use crate::fdio;
use crate::signal;
use crate::sys;
use crate::text;

verus! {

/// The canonical directory of one controller for the group `name`.
pub open spec fn cg_dir(controller: Seq<char>, name: Seq<char>) -> Seq<char> {
    "/sys/fs/cgroup/"@ + controller + "/"@ + name
}

/// The three directories a run with group `name` creates.
pub open spec fn creation_targets(name: Seq<char>) -> Seq<Seq<char>> {
    seq![cg_dir("cpu"@, name), cg_dir("memory"@, name), cg_dir("pids"@, name)]
}

/// Join a directory and a file name with a slash.
fn path_join(dir: &str, file: &str) -> (r: String)
    ensures
        r@ == dir@ + "/"@ + file@,
{
    let mut s = dir.to_owned();
    s.append("/");
    s.append(file);
    s
}

/// Build the directory path of one controller.
fn build_dir(controller: &str, name: &str) -> (r: String)
    ensures
        r@ == cg_dir(controller@, name@),
{
    let mut s: String = "/sys/fs/cgroup/".to_owned();
    s.append(controller);
    s.append("/");
    s.append(name);
    s
}

/// A failed group creation: the directory that could not be made, and
/// the errno mkdir reported for it.
#[derive(Debug, Clone, PartialEq, Eq)]
pub struct CgroupCreateError {
    pub path: String,
    pub errno: i32,
}

/// A created cgroup group: one directory per controller.
pub struct Cgroup {
    cpu: String,
    memory: String,
    pids: String,
}

impl Cgroup {
    /// The cpu controller directory.
    pub closed spec fn cpu_path(&self) -> Seq<char> {
        self.cpu@
    }

    /// The memory controller directory.
    pub closed spec fn memory_path(&self) -> Seq<char> {
        self.memory@
    }

    /// The pids controller directory.
    pub closed spec fn pids_path(&self) -> Seq<char> {
        self.pids@
    }

    /// The directories `cg_cleanup` removes for this handle.
    pub open spec fn removal_targets(&self) -> Seq<Seq<char>> {
        seq![self.cpu_path(), self.memory_path(), self.pids_path()]
    }

    /// The handle names exactly the three canonical directories of `name`.
    pub open spec fn wf(&self, name: Seq<char>) -> bool {
        &&& self.cpu_path() == cg_dir("cpu"@, name)
        &&& self.memory_path() == cg_dir("memory"@, name)
        &&& self.pids_path() == cg_dir("pids"@, name)
    }

    /// Ensure the three controller directories of `name` exist. A failure
    /// names the directory that could not be made.
    pub fn create(name: &str) -> (r: Result<Self, CgroupCreateError>)
        ensures
            r matches Ok(cg) ==> cg.wf(name@),
            r matches Err(e) ==> (e.path@ == cg_dir("cpu"@, name@) || e.path@ == cg_dir(
                "memory"@,
                name@,
            ) || e.path@ == cg_dir("pids"@, name@)),
    {
        let cpu = build_dir("cpu", name);
        let memory = build_dir("memory", name);
        let pids = build_dir("pids", name);
        if let Err(errno) = Self::ensure_dir(cpu.as_str()) {
            return Err(CgroupCreateError { path: cpu, errno });
        }
        if let Err(errno) = Self::ensure_dir(memory.as_str()) {
            return Err(CgroupCreateError { path: memory, errno });
        }
        if let Err(errno) = Self::ensure_dir(pids.as_str()) {
            return Err(CgroupCreateError { path: pids, errno });
        }
        Ok(Self { cpu, memory, pids })
    }

    /// The cpu controller directory of this group.
    pub fn cpu(&self) -> (r: &str)
        ensures
            r@ == self.cpu_path(),
    {
        self.cpu.as_str()
    }

    /// The memory controller directory of this group.
    pub fn memory(&self) -> (r: &str)
        ensures
            r@ == self.memory_path(),
    {
        self.memory.as_str()
    }

    /// The pids controller directory of this group.
    pub fn pids(&self) -> (r: &str)
        ensures
            r@ == self.pids_path(),
    {
        self.pids.as_str()
    }

    /// Make the directory when it is absent; an existing one is success.
    pub fn ensure_dir(cg_dir: &str) -> (r: Result<(), i32>) {
        if sys::sys_path_exists(cg_dir) {
            return Ok(());
        }
        sys::sys_mkdir(cg_dir, sys::MODE_RWX_R_R)
    }

    /// Remove one controller directory.
    pub fn remove_dir(cg_dir: &str) -> (r: Result<(), i32>) {
        sys::sys_rmdir(cg_dir)
    }

    /// Move the calling process into the group: append the literal `0` to
    /// the controller's `cgroup.procs`.
    pub fn add_self_proc(cg_dir: &str) -> (r: Result<(), i32>) {
        let path = path_join(cg_dir, "cgroup.procs");
        let fd = sys::sys_open(path.as_str(), sys::O_WRONLY | sys::O_APPEND, 0)?;
        let ret = fdio::write_str_all(fd, "0");
        fdio::close_quiet(fd);
        ret
    }

    /// Write the decimal rendering of `value` to the file, truncating it.
    pub fn write_type(cg_dir: &str, file: &str, value: u64) -> (r: Result<(), i32>) {
        let path = path_join(cg_dir, file);
        let fd = sys::sys_open(
            path.as_str(),
            sys::O_WRONLY | sys::O_CREAT | sys::O_TRUNC,
            sys::MODE_RW_R_R,
        )?;
        let text = text::u64_to_string(value);
        let ret = fdio::write_str_all(fd, text.as_str());
        fdio::close_quiet(fd);
        ret
    }

    /// Read the whole file as raw bytes.
    pub fn read_string(cg_dir: &str, file: &str) -> (r: Result<Vec<u8>, i32>) {
        let path = path_join(cg_dir, file);
        let fd = sys::sys_open(path.as_str(), sys::O_RDONLY | sys::O_CLOEXEC, 0)?;
        let ret = fdio::read_all(fd);
        fdio::close_quiet(fd);
        ret
    }

    /// Read the file, drop trailing whitespace, and parse it as a decimal
    /// number; `EINVAL` when the content is not one. The raw bytes come
    /// back beside the value, and the contract ties the two: the value is
    /// exactly the decimal reading of the trimmed bytes.
    pub fn read_type(cg_dir: &str, file: &str) -> (r: Result<MetricReading, i32>)
        ensures
            r matches Ok(m) ==> parses_to(m.raw@, m.value),
    {
        let raw = Self::read_string(cg_dir, file)?;
        let mut content = text::clone_bytes(&raw);
        text::trim_trailing_ws(&mut content);
        match text::parse_u64(content.as_slice()) {
            Some(v) => Ok(MetricReading { value: v, raw }),
            None => Err(EINVAL),
        }
    }
}

/// One numeric kernel file as read: the parsed value beside the raw bytes
/// it came from.
#[derive(Debug, Clone, PartialEq, Eq)]
pub struct MetricReading {
    pub value: u64,
    pub raw: Vec<u8>,
}

/// The bytes parse, after trimming trailing whitespace, to exactly this
/// value.
pub open spec fn parses_to(raw: Seq<u8>, v: u64) -> bool {
    &&& text::trimmed(raw).len() > 0
    &&& text::all_digits(text::trimmed(raw))
    &&& text::dec_value(text::trimmed(raw)) == v
}

/// Errno used when a kernel file does not parse as the expected number.
pub const EINVAL: i32 = 22;

/// Open descriptors on the two metric files, held so the zeroing writes
/// can be deferred to the last moment before `execve` — after them the
/// counters reflect the target alone, not the preparation sequence.
pub struct CgResetFds {
    cpu_fd: i32,
    mem_fd: i32,
}

/// Open the `cpuacct.usage` and `memory.max_usage_in_bytes` files of the
/// group for writing, without writing yet.
pub fn cg_prepare_reset_metrics(cg: &Cgroup) -> (r: Result<CgResetFds, i32>) {
    let cpu_path = path_join(cg.cpu(), "cpuacct.usage");
    let mem_path = path_join(cg.memory(), "memory.max_usage_in_bytes");
    let cpu_fd = sys::sys_open(
        cpu_path.as_str(),
        sys::O_WRONLY | sys::O_CREAT | sys::O_TRUNC,
        sys::MODE_RW_R_R,
    )?;
    let mem_fd = match sys::sys_open(
        mem_path.as_str(),
        sys::O_WRONLY | sys::O_CREAT | sys::O_TRUNC,
        sys::MODE_RW_R_R,
    ) {
        Ok(fd) => fd,
        Err(e) => {
            fdio::close_quiet(cpu_fd);
            return Err(e);
        },
    };
    Ok(CgResetFds { cpu_fd, mem_fd })
}

/// Zero both metric files through the descriptors opened earlier, then
/// close them.
pub fn cg_reset_metrics(handles: CgResetFds) -> (r: Result<(), i32>) {
    let ret1 = fdio::write_str_all(handles.cpu_fd, "0");
    let ret2 = fdio::write_str_all(handles.mem_fd, "0");
    fdio::close_quiet(handles.cpu_fd);
    fdio::close_quiet(handles.mem_fd);
    match ret1 {
        Ok(()) => ret2,
        Err(e) => Err(e),
    }
}

/// What the cgroup counted for a finished run, in raw kernel units.
#[derive(Debug, Clone, PartialEq, Eq, Structural)]
pub struct Metrics {
    /// System CPU time, in nanoseconds.
    pub sys_time: u64,
    /// User CPU time, in nanoseconds.
    pub user_time: u64,
    /// Peak memory usage, in bytes.
    pub memory: u64,
}

/// The raw bytes behind one metric collection, one file each.
#[derive(Debug, Clone, PartialEq, Eq)]
pub struct MetricsRaw {
    /// Content of `cpu/cpuacct.usage_sys`.
    pub sys_time: Vec<u8>,
    /// Content of `cpu/cpuacct.usage_user`.
    pub user_time: Vec<u8>,
    /// Content of `memory/memory.max_usage_in_bytes`.
    pub memory: Vec<u8>,
}

/// Read the three metric files of the group: system and user CPU time in
/// nanoseconds, peak memory in bytes. The raw file contents come back
/// beside the numbers, and each number is exactly the decimal reading of
/// its file's trimmed bytes.
pub fn cg_collect(cg: &Cgroup) -> (r: Result<(Metrics, MetricsRaw), i32>)
    ensures
        r matches Ok(p) ==> parses_to(p.1.sys_time@, p.0.sys_time) && parses_to(
            p.1.user_time@,
            p.0.user_time,
        ) && parses_to(p.1.memory@, p.0.memory),
{
    let sys_time = Cgroup::read_type(cg.cpu(), "cpuacct.usage_sys")?;
    let user_time = Cgroup::read_type(cg.cpu(), "cpuacct.usage_user")?;
    let memory = Cgroup::read_type(cg.memory(), "memory.max_usage_in_bytes")?;
    let m = Metrics { sys_time: sys_time.value, user_time: user_time.value, memory: memory.value };
    let raw = MetricsRaw { sys_time: sys_time.raw, user_time: user_time.raw, memory: memory.raw };
    Ok((m, raw))
}

/// The directories this handle will remove, in removal order.
fn removal_dirs(cg: &Cgroup) -> (r: Vec<String>)
    ensures
        r@.map_values(|s: String| s@) == cg.removal_targets(),
{
    let mut v: Vec<String> = Vec::new();
    v.push(cg.cpu().to_owned());
    v.push(cg.memory().to_owned());
    v.push(cg.pids().to_owned());
    proof {
        assert(v@.map_values(|s: String| s@) =~= cg.removal_targets());
    }
    v
}

/// Tear the group down: stop and kill every process still listed in the
/// cpu controller's `cgroup.procs`, then remove all three directories.
/// A directory that resists removal is left behind rather than allowed to
/// mask the run's result; only a failure to read the process list is an
/// error, because then stragglers may survive.
pub fn cg_cleanup(cg: Cgroup) -> (r: Result<(), i32>) {
    let content = Cgroup::read_string(cg.cpu(), "cgroup.procs")?;
    if content.len() > 0 {
        let pieces = text::split_lines(content.as_slice());
        let pids = text::collect_pids(&pieces);
        signal::killall(&pids);
    }
    let dirs = removal_dirs(&cg);
    let mut i: usize = 0;
    while i < dirs.len()
        decreases dirs@.len() - i,
    {
        let _ = Cgroup::remove_dir(dirs[i].as_str());
        i += 1;
    }
    Ok(())
}

/// Teardown covers creation: for a handle created under `name`, the
/// directories `cg_cleanup` removes are exactly the directories
/// `Cgroup::create(name)` made, so no run leaves a controller directory
/// of its own behind.
pub proof fn lemma_cleanup_covers_create(cg: Cgroup, name: Seq<char>)
    requires
        cg.wf(name),
    ensures
        cg.removal_targets() =~= creation_targets(name),
{
}

/// Two runs under different group names never share a controller
/// directory: what one run creates and removes is disjoint from what any
/// other does.
pub proof fn lemma_runs_do_not_collide(cg1: Cgroup, cg2: Cgroup, n1: Seq<char>, n2: Seq<char>)
    requires
        cg1.wf(n1),
        cg2.wf(n2),
        n1 != n2,
    ensures
        cg1.cpu_path() != cg2.cpu_path(),
        cg1.memory_path() != cg2.memory_path(),
        cg1.pids_path() != cg2.pids_path(),
{
    text::lemma_concat_inj("/sys/fs/cgroup/"@ + "cpu"@ + "/"@, n1, n2);
    text::lemma_concat_inj("/sys/fs/cgroup/"@ + "memory"@ + "/"@, n1, n2);
    text::lemma_concat_inj("/sys/fs/cgroup/"@ + "pids"@ + "/"@, n1, n2);
    assert(cg_dir("cpu"@, n1) =~= ("/sys/fs/cgroup/"@ + "cpu"@ + "/"@) + n1);
    assert(cg_dir("cpu"@, n2) =~= ("/sys/fs/cgroup/"@ + "cpu"@ + "/"@) + n2);
    assert(cg_dir("memory"@, n1) =~= ("/sys/fs/cgroup/"@ + "memory"@ + "/"@) + n1);
    assert(cg_dir("memory"@, n2) =~= ("/sys/fs/cgroup/"@ + "memory"@ + "/"@) + n2);
    assert(cg_dir("pids"@, n1) =~= ("/sys/fs/cgroup/"@ + "pids"@ + "/"@) + n1);
    assert(cg_dir("pids"@, n2) =~= ("/sys/fs/cgroup/"@ + "pids"@ + "/"@) + n2);
}

} // verus!
