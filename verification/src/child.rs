//! Everything the child does between the clone and `execve`, in the order
//! the isolation demands: mounts first (they need the fresh namespace),
//! cgroup attachment before the chroot (the cgroup filesystem vanishes with
//! it), limits and stdio next, the metric reset as late as possible, and
//! the identity drop last — after it nothing privileged remains possible.

use vstd::prelude::*;
use crate::cgroup_v1;
use crate::cgroup_v1::Cgroup;
use crate::config::SandboxConfig;
use crate::config::BindMount;
use crate::config::is_abs;
use crate::fdio;
use crate::mount;
use crate::sys;
use crate::text;

verus! {

/// The step of the child sequence that failed.
#[derive(Debug, Clone, Copy, PartialEq, Eq, Structural)]
pub enum ChildStep {
    /// Remounting `/` private.
    RootPrivate,
    /// A configured bind mount.
    BindMountStep,
    /// Mounting `proc`.
    MountProcStep,
    /// Mounting `tmpfs`.
    MountTmpfsStep,
    /// Building `argv` and `envp`.
    ExecArgsStep,
    /// Attaching to the cgroup or writing its limits.
    CgroupStep,
    /// Opening the metric files for the later reset.
    MetricsPrep,
    /// The chroot or the chdir after it.
    ChrootStep,
    /// Installing an rlimit.
    RlimitStep,
    /// Setting the scheduling priority.
    PriorityStep,
    /// Redirecting a standard stream.
    StdioStep,
    /// The existence check on the target binary.
    AccessBin,
    /// Installing the IPC-forbidding filter.
    SeccompStep,
    /// The zeroing writes to the metric files.
    MetricsReset,
    /// Dropping group or user identity.
    SetIdStep,
}

/// The text naming one step in a diagnostic.
pub open spec fn step_text(s: ChildStep) -> Seq<char> {
    match s {
        ChildStep::RootPrivate => "failed to make root private"@,
        ChildStep::BindMountStep => "failed to do bind mount"@,
        ChildStep::MountProcStep => "failed to mount proc"@,
        ChildStep::MountTmpfsStep => "failed to mount tmpfs"@,
        ChildStep::ExecArgsStep => "failed to prepare execve args"@,
        ChildStep::CgroupStep => "failed to setup cgroup"@,
        ChildStep::MetricsPrep => "failed to prepare cgroup metrics"@,
        ChildStep::ChrootStep => "failed to chroot"@,
        ChildStep::RlimitStep => "failed to set rlimit"@,
        ChildStep::PriorityStep => "failed to set priority"@,
        ChildStep::StdioStep => "failed to redirect stdio"@,
        ChildStep::AccessBin => "failed to access target binary"@,
        ChildStep::SeccompStep => "failed to install seccomp filter"@,
        ChildStep::MetricsReset => "failed to reset cgroup metrics"@,
        ChildStep::SetIdStep => "failed to set uid or gid"@,
    }
}

/// A failure of one preparation step, with the errno it produced.
#[derive(Debug, Clone, Copy, PartialEq, Eq, Structural)]
pub struct ChildError {
    pub step: ChildStep,
    pub errno: i32,
}

impl ChildError {
    /// The diagnostic the child sends over the error pipe: the step name
    /// and the errno. Never empty, so the parent cannot read it as the
    /// success sentinel.
    pub fn message(&self) -> (r: String)
        ensures
            r@ == step_text(self.step) + ": errno = "@ + text::dec_chars_signed(
                self.errno as int,
            ),
            r@.len() > 0,
    {
        let head: &str = match self.step {
            ChildStep::RootPrivate => "failed to make root private",
            ChildStep::BindMountStep => "failed to do bind mount",
            ChildStep::MountProcStep => "failed to mount proc",
            ChildStep::MountTmpfsStep => "failed to mount tmpfs",
            ChildStep::ExecArgsStep => "failed to prepare execve args",
            ChildStep::CgroupStep => "failed to setup cgroup",
            ChildStep::MetricsPrep => "failed to prepare cgroup metrics",
            ChildStep::ChrootStep => "failed to chroot",
            ChildStep::RlimitStep => "failed to set rlimit",
            ChildStep::PriorityStep => "failed to set priority",
            ChildStep::StdioStep => "failed to redirect stdio",
            ChildStep::AccessBin => "failed to access target binary",
            ChildStep::SeccompStep => "failed to install seccomp filter",
            ChildStep::MetricsReset => "failed to reset cgroup metrics",
            ChildStep::SetIdStep => "failed to set uid or gid",
        };
        proof {
            reveal_strlit(": errno = ");
        }
        let mut s = head.to_owned();
        s.append(": errno = ");
        let e = text::i64_to_string(self.errno as i64);
        s.append(e.as_str());
        s
    }
}

/// No NUL character anywhere: the condition for handing a string to
/// `execve`.
pub open spec fn no_nul(s: Seq<char>) -> bool {
    forall|i: int| 0 <= i < s.len() ==> s[i] != '\0'
}

/// Whether `c` occurs in `s`.
pub open spec fn has_char(s: Seq<char>, c: char) -> bool {
    exists|i: int| 0 <= i < s.len() && s[i] == c
}

/// Test for one character.
fn contains_char(s: &str, c: char) -> (r: bool)
    ensures
        r == has_char(s@, c),
{
    match text::find_char(s, c) {
        Some(i) => {
            assert(has_char(s@, c));
            true
        },
        None => {
            assert(!has_char(s@, c));
            false
        },
    }
}

/// The first value in the parent environment bound to `name`.
pub open spec fn lookup_env(parent: Seq<(Seq<char>, Seq<char>)>, name: Seq<char>) -> Option<
    Seq<char>,
>
    decreases parent.len(),
{
    if parent.len() == 0 {
        None
    } else if parent[0].0 == name {
        Some(parent[0].1)
    } else {
        lookup_env(parent.drop_first(), name)
    }
}

/// What one configured entry contributes to `envp`: an entry with `=` is
/// literal; a bare name is expanded from the parent environment, or
/// dropped when absent there.
pub open spec fn env_expansion(e: Seq<char>, parent: Seq<(Seq<char>, Seq<char>)>) -> Option<
    Seq<char>,
> {
    if has_char(e, '=') {
        Some(e)
    } else {
        match lookup_env(parent, e) {
            Some(v) => Some(e + "="@ + v),
            None => None,
        }
    }
}

/// The whole environment vector the configured entries produce.
pub open spec fn envp_of(entries: Seq<Seq<char>>, parent: Seq<(Seq<char>, Seq<char>)>) -> Seq<
    Seq<char>,
>
    decreases entries.len(),
{
    if entries.len() == 0 {
        Seq::empty()
    } else {
        let rest = envp_of(entries.drop_first(), parent);
        match env_expansion(entries[0], parent) {
            Some(x) => seq![x] + rest,
            None => rest,
        }
    }
}

/// The view of a parent environment list.
pub open spec fn parent_view(parent: Seq<(String, String)>) -> Seq<(Seq<char>, Seq<char>)> {
    parent.map_values(|p: (String, String)| (p.0@, p.1@))
}

/// First-match lookup in the parent environment.
fn lookup_parent(parent: &Vec<(String, String)>, name: &String) -> (r: Option<String>)
    ensures
        match r {
            Some(v) => lookup_env(parent_view(parent@), name@) == Some(v@),
            None => lookup_env(parent_view(parent@), name@) is None,
        },
{
    let ghost pv = parent_view(parent@);
    let n = parent.len();
    let mut k: usize = 0;
    proof {
        assert(pv.subrange(0, n as int) =~= pv);
    }
    while k < n
        invariant
            n == parent@.len(),
            pv == parent_view(parent@),
            k <= n,
            lookup_env(pv, name@) == lookup_env(pv.subrange(k as int, n as int), name@),
        decreases n - k,
    {
        proof {
            assert(pv.subrange(k as int, n as int).drop_first() =~= pv.subrange(k + 1, n as int));
            assert(pv.subrange(k as int, n as int)[0] == pv[k as int]);
        }
        if parent[k].0.eq(name) {
            assert(pv[k as int].0 == name@);
            return Some(parent[k].1.clone());
        }
        assert(pv[k as int].0 != name@);
        k += 1;
    }
    proof {
        assert(pv.subrange(n as int, n as int) =~= Seq::<(Seq<char>, Seq<char>)>::empty());
    }
    None
}

/// Build `envp` from the configured entries and the parent environment.
pub fn build_envp(entries: &Vec<String>, parent: &Vec<(String, String)>) -> (r: Vec<String>)
    ensures
        r@.map_values(|s: String| s@) == envp_of(
            entries@.map_values(|e: String| e@),
            parent_view(parent@),
        ),
{
    let ghost ev = entries@.map_values(|e: String| e@);
    let ghost pv = parent_view(parent@);
    let n = entries.len();
    let mut out: Vec<String> = Vec::new();
    let mut i: usize = 0;
    proof {
        assert(ev.subrange(0, n as int) =~= ev);
        assert(out@.map_values(|s: String| s@) + envp_of(ev, pv) =~= envp_of(ev, pv));
    }
    while i < n
        invariant
            n == entries@.len(),
            ev == entries@.map_values(|e: String| e@),
            pv == parent_view(parent@),
            i <= n,
            envp_of(ev, pv) == out@.map_values(|s: String| s@) + envp_of(
                ev.subrange(i as int, n as int),
                pv,
            ),
        decreases n - i,
    {
        proof {
            assert(ev.subrange(i as int, n as int).drop_first() =~= ev.subrange(i + 1, n as int));
            assert(ev.subrange(i as int, n as int)[0] == ev[i as int]);
        }
        let ghost out_pre = out@;
        let e: &String = &entries[i];
        if contains_char(e.as_str(), '=') {
            out.push(e.clone());
            proof {
                assert(out@.map_values(|s: String| s@) =~= out_pre.map_values(|s: String| s@)
                    + seq![ev[i as int]]);
            }
        } else {
            match lookup_parent(parent, e) {
                Some(v) => {
                    let mut x = e.clone();
                    x.append("=");
                    x.append(v.as_str());
                    assert(x@ == ev[i as int] + "="@ + v@);
                    out.push(x);
                    proof {
                        assert(env_expansion(ev[i as int], pv) == Some(ev[i as int] + "="@ + v@));
                        assert(out@.map_values(|s: String| s@) =~= out_pre.map_values(
                            |s: String| s@,
                        ) + seq![ev[i as int] + "="@ + v@]);
                    }
                },
                None => {
                    proof {
                        assert(env_expansion(ev[i as int], pv) is None);
                    }
                },
            }
        }
        i += 1;
        proof {
            assert(envp_of(ev, pv) =~= out@.map_values(|s: String| s@) + envp_of(
                ev.subrange(i as int, n as int),
                pv,
            ));
        }
    }
    proof {
        assert(ev.subrange(n as int, n as int) =~= Seq::<Seq<char>>::empty());
        assert(out@.map_values(|s: String| s@) + envp_of(Seq::empty(), pv) =~= out@.map_values(
            |s: String| s@,
        ));
    }
    out
}

/// The argument vector: the binary itself first, then the configured
/// arguments in order.
pub open spec fn argv_ok(c: SandboxConfig, argv: Seq<Seq<char>>) -> bool {
    &&& argv.len() == 1 + c.args@.len()
    &&& argv[0] == c.bin@
    &&& forall|i: int| 0 <= i < c.args@.len() ==> argv[i + 1] == (#[trigger] c.args@[i])@
}

/// Build `argv`.
fn build_argv(config: &SandboxConfig) -> (r: Vec<String>)
    ensures
        argv_ok(*config, r@.map_values(|s: String| s@)),
{
    let mut argv: Vec<String> = Vec::new();
    argv.push(config.bin.clone());
    let n = config.args.len();
    let mut i: usize = 0;
    while i < n
        invariant
            n == config.args@.len(),
            i <= n,
            argv@.len() == 1 + i,
            argv@[0]@ == config.bin@,
            forall|k: int| 0 <= k < i ==> argv@[k + 1]@ == (#[trigger] config.args@[k])@,
        decreases n - i,
    {
        argv.push(config.args[i].clone());
        i += 1;
    }
    proof {
        let m = argv@.map_values(|s: String| s@);
        assert(m[0] == argv@[0]@);
        assert forall|k: int| 0 <= k < config.args@.len() implies m[k + 1] == (
        #[trigger] config.args@[k])@ by {
            assert(m[k + 1] == argv@[k + 1]@);
        }
    }
    argv
}

/// Whether every string in the list is free of NUL characters.
fn all_nul_free(v: &Vec<String>) -> (r: bool)
    ensures
        r == forall|i: int| 0 <= i < v@.len() ==> no_nul((#[trigger] v@[i])@),
{
    let n = v.len();
    let mut i: usize = 0;
    while i < n
        invariant
            n == v@.len(),
            i <= n,
            forall|k: int| 0 <= k < i ==> no_nul((#[trigger] v@[k])@),
        decreases n - i,
    {
        if contains_char(v[i].as_str(), '\0') {
            assert(!no_nul(v@[i as int]@));
            return false;
        }
        assert(no_nul(v@[i as int]@));
        i += 1;
    }
    true
}

/// What the caller needs for `execve`: the argument vector and the
/// environment vector, every string free of NUL characters.
#[derive(Debug)]
pub struct ExecArgs {
    pub argv: Vec<String>,
    pub envp: Vec<String>,
}

/// The built vectors are exactly what the configuration prescribes, and
/// safe to hand to `execve`.
pub open spec fn exec_args_ok(
    c: SandboxConfig,
    parent: Seq<(Seq<char>, Seq<char>)>,
    ea: ExecArgs,
) -> bool {
    &&& argv_ok(c, ea.argv@.map_values(|s: String| s@))
    &&& ea.envp@.map_values(|s: String| s@) == envp_of(
        c.env@.map_values(|e: String| e@),
        parent,
    )
    &&& forall|i: int| 0 <= i < ea.argv@.len() ==> no_nul((#[trigger] ea.argv@[i])@)
    &&& forall|i: int| 0 <= i < ea.envp@.len() ==> no_nul((#[trigger] ea.envp@[i])@)
}

/// Errno reported when an execve string holds an interior NUL.
pub const ENUL: i32 = 22;

/// Every string in the list is free of NUL characters.
pub open spec fn all_no_nul(ss: Seq<Seq<char>>) -> bool {
    forall|i: int| 0 <= i < ss.len() ==> no_nul(#[trigger] ss[i])
}

/// The strings `execve` would receive for a configuration: the argument
/// vector and the expanded environment.
pub open spec fn exec_strings(c: SandboxConfig, parent: Seq<(Seq<char>, Seq<char>)>) -> Seq<
    Seq<char>,
> {
    seq![c.bin@] + c.args@.map_values(|a: String| a@) + envp_of(
        c.env@.map_values(|e: String| e@),
        parent,
    )
}

/// Build both vectors and check them for `execve`: success exactly when
/// none of the strings holds an interior NUL.
pub fn prepare_execve_args(config: &SandboxConfig, parent: &Vec<(String, String)>) -> (r: Result<
    ExecArgs,
    ChildError,
>)
    ensures
        r matches Ok(ea) ==> exec_args_ok(*config, parent_view(parent@), ea),
        r is Ok <==> all_no_nul(exec_strings(*config, parent_view(parent@))),
        r matches Err(e) ==> e.step == ChildStep::ExecArgsStep,
{
    let argv = build_argv(config);
    let envp = build_envp(&config.env, parent);
    let ghost strings = exec_strings(*config, parent_view(parent@));
    proof {
        let av = argv@.map_values(|s: String| s@);
        let ev = envp@.map_values(|s: String| s@);
        assert(av =~= seq![config.bin@] + config.args@.map_values(|a: String| a@));
        assert(strings =~= av + ev);
        assert forall|i: int| 0 <= i < av.len() implies av[i] == strings[i] by {}
        assert forall|i: int| 0 <= i < ev.len() implies ev[i] == strings[av.len() + i] by {}
    }
    let argv_clean = all_nul_free(&argv);
    let envp_clean = all_nul_free(&envp);
    if !argv_clean || !envp_clean {
        proof {
            let av = argv@.map_values(|s: String| s@);
            let ev = envp@.map_values(|s: String| s@);
            if !argv_clean {
                let k = choose|k: int| 0 <= k < argv@.len() && !no_nul(argv@[k]@);
                assert(strings[k] == av[k]);
                assert(av[k] == argv@[k]@);
                assert(!no_nul(strings[k]));
            } else {
                let k = choose|k: int| 0 <= k < envp@.len() && !no_nul(envp@[k]@);
                assert(strings[av.len() + k] == ev[k]);
                assert(ev[k] == envp@[k]@);
                assert(!no_nul(strings[av.len() + k]));
            }
            assert(!all_no_nul(strings));
        }
        return Err(ChildError { step: ChildStep::ExecArgsStep, errno: ENUL });
    }
    proof {
        assert forall|i: int| 0 <= i < strings.len() implies no_nul(#[trigger] strings[i]) by {
            let av = argv@.map_values(|s: String| s@);
            let ev = envp@.map_values(|s: String| s@);
            if i < av.len() {
                assert(strings[i] == av[i]);
                assert(av[i] == argv@[i]@);
            } else {
                assert(strings[i] == ev[i - av.len()]);
                assert(ev[i - av.len()] == envp@[i - av.len()]@);
            }
        }
    }
    Ok(ExecArgs { argv, envp })
}

/// How a redirect path is opened.
#[derive(Debug, Clone, Copy, PartialEq, Eq, Structural)]
pub enum OpenMode {
    /// Read-only, for stdin.
    ReadOnly,
    /// Write-only, created when absent, truncated when present — never
    /// appended — for stdout and stderr.
    WriteTruncate,
}

/// Where a standard descriptor is redirected from.
#[derive(Debug, Clone, PartialEq, Eq)]
pub enum RedirectSource {
    /// Open this path with this mode.
    FromPath(String, OpenMode),
    /// Duplicate this already open descriptor.
    FromFd(i32),
}

/// One redirect: put `source` on descriptor `target_fd`.
#[derive(Debug, Clone, PartialEq, Eq)]
pub struct RedirectOp {
    pub target_fd: i32,
    pub source: RedirectSource,
}

/// The redirects one stream contributes: its path when one is set, else
/// its raw descriptor, else nothing.
pub open spec fn stream_plan(
    target_fd: i32,
    path: Option<String>,
    rawfd: Option<i32>,
    mode: OpenMode,
) -> Seq<RedirectOp> {
    match path {
        Some(p) => seq![RedirectOp { target_fd, source: RedirectSource::FromPath(p, mode) }],
        None => match rawfd {
            Some(f) => seq![RedirectOp { target_fd, source: RedirectSource::FromFd(f) }],
            None => Seq::empty(),
        },
    }
}

/// The whole redirect plan: stdin, then stdout, then stderr. Output
/// streams always use the truncating mode.
pub open spec fn stdio_plan_spec(c: SandboxConfig) -> Seq<RedirectOp> {
    stream_plan(0, c.stdin, c.stdin_fd, OpenMode::ReadOnly) + stream_plan(
        1,
        c.stdout,
        c.stdout_fd,
        OpenMode::WriteTruncate,
    ) + stream_plan(2, c.stderr, c.stderr_fd, OpenMode::WriteTruncate)
}

/// Compute the redirects for one stream.
fn stream_ops(
    target_fd: i32,
    path: &Option<String>,
    rawfd: &Option<i32>,
    mode: OpenMode,
) -> (r: Vec<RedirectOp>)
    ensures
        r@ == stream_plan(target_fd, *path, *rawfd, mode),
{
    let mut v: Vec<RedirectOp> = Vec::new();
    match path {
        Some(p) => {
            v.push(RedirectOp { target_fd, source: RedirectSource::FromPath(p.clone(), mode) });
            proof {
                assert(v@ =~= stream_plan(target_fd, *path, *rawfd, mode));
            }
        },
        None => {
            match rawfd {
                Some(f) => {
                    v.push(RedirectOp { target_fd, source: RedirectSource::FromFd(*f) });
                    proof {
                        assert(v@ =~= stream_plan(target_fd, *path, *rawfd, mode));
                    }
                },
                None => {
                    proof {
                        assert(v@ =~= stream_plan(target_fd, *path, *rawfd, mode));
                    }
                },
            }
        },
    }
    v
}

/// Compute the whole redirect plan of a configuration.
pub fn stdio_plan(config: &SandboxConfig) -> (r: Vec<RedirectOp>)
    ensures
        r@ == stdio_plan_spec(*config),
{
    let mut v = stream_ops(0, &config.stdin, &config.stdin_fd, OpenMode::ReadOnly);
    let mut v1 = stream_ops(1, &config.stdout, &config.stdout_fd, OpenMode::WriteTruncate);
    let mut v2 = stream_ops(2, &config.stderr, &config.stderr_fd, OpenMode::WriteTruncate);
    v.append(&mut v1);
    v.append(&mut v2);
    proof {
        assert(v@ =~= stdio_plan_spec(*config));
    }
    v
}

/// A configured stdout path is always opened truncating, never appending:
/// the plan maps it to descriptor 1 with the `WriteTruncate` mode, and the
/// executor opens that mode with `O_TRUNC` and without `O_APPEND`.
pub proof fn lemma_stdout_truncated(c: SandboxConfig, p: String)
    requires
        c.stdout == Some(p),
    ensures
        exists|k: int|
            {
                &&& 0 <= k < stdio_plan_spec(c).len()
                &&& (#[trigger] stdio_plan_spec(c)[k]).target_fd == 1
                &&& stdio_plan_spec(c)[k].source == RedirectSource::FromPath(
                    p,
                    OpenMode::WriteTruncate,
                )
            },
{
    let first = stream_plan(0, c.stdin, c.stdin_fd, OpenMode::ReadOnly);
    let k = first.len() as int;
    assert(stdio_plan_spec(c)[k].target_fd == 1 && stdio_plan_spec(c)[k].source
        == RedirectSource::FromPath(p, OpenMode::WriteTruncate));
}

/// Flags of a read-only redirect source.
pub const INPUT_OPEN_FLAGS: i32 = sys::O_RDONLY | sys::O_CLOEXEC;

/// Flags of an output redirect: write-only, created when absent,
/// truncated when present — `O_TRUNC`, never `O_APPEND`.
pub const OUTPUT_OPEN_FLAGS: i32 = sys::O_WRONLY | sys::O_CREAT | sys::O_TRUNC | sys::O_CLOEXEC;

/// The open flags and file mode used for each redirect mode: read-only
/// sources open with `INPUT_OPEN_FLAGS` and no mode; output paths open
/// with `OUTPUT_OPEN_FLAGS` and mode 0644.
pub fn open_flags(mode: OpenMode) -> (r: (i32, u32))
    ensures
        mode is ReadOnly ==> r == (INPUT_OPEN_FLAGS, 0u32),
        mode is WriteTruncate ==> r == (OUTPUT_OPEN_FLAGS, sys::MODE_RW_R_R),
{
    match mode {
        OpenMode::ReadOnly => (INPUT_OPEN_FLAGS, 0),
        OpenMode::WriteTruncate => (OUTPUT_OPEN_FLAGS, sys::MODE_RW_R_R),
    }
}

/// The output flag word truncates and never appends: the `O_TRUNC` bit is
/// set and the `O_APPEND` bit is not.
pub proof fn lemma_output_flags_truncate()
    ensures
        OUTPUT_OPEN_FLAGS & sys::O_TRUNC == sys::O_TRUNC,
        OUTPUT_OPEN_FLAGS & sys::O_APPEND == 0,
{
    assert((0x1i32 | 0x40i32 | 0x200i32 | 0x80000i32) & 0x200i32 == 0x200i32) by (bit_vector);
    assert((0x1i32 | 0x40i32 | 0x200i32 | 0x80000i32) & 0x400i32 == 0i32) by (bit_vector);
}

/// Perform one stream redirect: open or reuse the source with exactly the
/// flags `open_flags` fixes, duplicate it onto the target descriptor, and
/// close the original.
fn execute_redirect(op: &RedirectOp) -> (r: Result<(), i32>) {
    match &op.source {
        RedirectSource::FromPath(p, mode) => {
            let (flags, fmode): (i32, u32) = open_flags(*mode);
            let fd = sys::sys_open(p.as_str(), flags, fmode)?;
            let ret = sys::sys_dup2(fd, op.target_fd);
            fdio::close_quiet(fd);
            match ret {
                Ok(_) => Ok(()),
                Err(e) => Err(e),
            }
        },
        RedirectSource::FromFd(f) => {
            match sys::sys_dup2(*f, op.target_fd) {
                Ok(_) => Ok(()),
                Err(e) => Err(e),
            }
        },
    }
}

/// Redirect the standard streams as the plan prescribes, and hand the
/// executed plan back as the witness: on success it is exactly the plan
/// of the configuration. A configuration that plans no redirect cannot
/// fail here — nothing is opened or duplicated for it.
pub fn redirect_stdio(config: &SandboxConfig) -> (r: Result<Vec<RedirectOp>, i32>)
    ensures
        r matches Ok(ops) ==> ops@ == stdio_plan_spec(*config),
        stdio_plan_spec(*config).len() == 0 ==> r is Ok,
{
    let plan = stdio_plan(config);
    let n = plan.len();
    let mut i: usize = 0;
    while i < n
        invariant
            n == plan@.len(),
            i <= n,
            plan@ == stdio_plan_spec(*config),
        decreases n - i,
    {
        if let Err(e) = execute_redirect(&plan[i]) {
            return Err(e);
        }
        i += 1;
    }
    Ok(plan)
}

/// The bind mounts in installation order — source, destination, and the
/// read-only flag — every read-write mount before every read-only one.
pub open spec fn mount_jobs_spec(c: SandboxConfig) -> Seq<(Seq<char>, Seq<char>, bool)> {
    c.bindmount_rw@.map_values(|m: BindMount| (m.src@, m.dst@, false)) + c.bindmount_ro@
        .map_values(|m: BindMount| (m.src@, m.dst@, true))
}

/// The view of a computed job list.
pub open spec fn job_views(jobs: Seq<(BindMount, bool)>) -> Seq<(Seq<char>, Seq<char>, bool)> {
    jobs.map_values(|j: (BindMount, bool)| (j.0.src@, j.0.dst@, j.1))
}

/// Read-write binds precede read-only binds in the plan, so the read-only
/// remount semantics are unambiguous.
pub proof fn lemma_rw_before_ro(c: SandboxConfig)
    ensures
        forall|i: int, j: int|
            0 <= i < c.bindmount_rw@.len() && c.bindmount_rw@.len() <= j < mount_jobs_spec(
                c,
            ).len() ==> !(#[trigger] mount_jobs_spec(c)[i]).2 && (#[trigger] mount_jobs_spec(
                c,
            )[j]).2,
{
}

/// With a valid configuration, every planned mount has absolute paths.
proof fn lemma_jobs_abs(c: SandboxConfig)
    requires
        c.mounts_ok(),
    ensures
        forall|i: int|
            0 <= i < mount_jobs_spec(c).len() ==> is_abs((#[trigger] mount_jobs_spec(c)[i]).0)
                && is_abs(mount_jobs_spec(c)[i].1),
{
    let jobs = mount_jobs_spec(c);
    let nrw = c.bindmount_rw@.len() as int;
    assert forall|i: int| 0 <= i < jobs.len() implies is_abs((#[trigger] jobs[i]).0) && is_abs(
        jobs[i].1,
    ) by {
        if i < nrw {
            assert(jobs[i] == (c.bindmount_rw@[i].src@, c.bindmount_rw@[i].dst@, false));
        } else {
            assert(jobs[i] == (c.bindmount_ro@[i - nrw].src@, c.bindmount_ro@[i - nrw].dst@, true));
        }
    }
}

/// Compute the bind mounts in order.
fn mount_jobs(config: &SandboxConfig) -> (r: Vec<(BindMount, bool)>)
    ensures
        job_views(r@) == mount_jobs_spec(*config),
{
    let mut v: Vec<(BindMount, bool)> = Vec::new();
    let nrw = config.bindmount_rw.len();
    let mut i: usize = 0;
    while i < nrw
        invariant
            nrw == config.bindmount_rw@.len(),
            i <= nrw,
            v@.len() == i,
            forall|k: int|
                0 <= k < i ==> ((#[trigger] v@[k]).0.src@ == config.bindmount_rw@[k].src@
                    && v@[k].0.dst@ == config.bindmount_rw@[k].dst@ && v@[k].1 == false),
        decreases nrw - i,
    {
        v.push((config.bindmount_rw[i].duplicate(), false));
        i += 1;
    }
    let nro = config.bindmount_ro.len();
    let mut j: usize = 0;
    while j < nro
        invariant
            nrw == config.bindmount_rw@.len(),
            nro == config.bindmount_ro@.len(),
            j <= nro,
            v@.len() == nrw + j,
            forall|k: int|
                0 <= k < nrw ==> ((#[trigger] v@[k]).0.src@ == config.bindmount_rw@[k].src@
                    && v@[k].0.dst@ == config.bindmount_rw@[k].dst@ && v@[k].1 == false),
            forall|k: int|
                nrw <= k < nrw + j ==> ((#[trigger] v@[k]).0.src@ == config.bindmount_ro@[k
                    - nrw].src@ && v@[k].0.dst@ == config.bindmount_ro@[k - nrw].dst@ && v@[k].1
                    == true),
        decreases nro - j,
    {
        v.push((config.bindmount_ro[j].duplicate(), true));
        j += 1;
    }
    proof {
        let jv = job_views(v@);
        let ms = mount_jobs_spec(*config);
        let a = config.bindmount_rw@.map_values(|m: BindMount| (m.src@, m.dst@, false));
        let b = config.bindmount_ro@.map_values(|m: BindMount| (m.src@, m.dst@, true));
        assert(jv.len() == ms.len());
        assert forall|k: int| 0 <= k < jv.len() implies jv[k] == ms[k] by {
            assert(jv[k] == (v@[k].0.src@, v@[k].0.dst@, v@[k].1));
            assert(ms == a + b);
            if k < nrw as int {
                assert(ms[k] == a[k]);
                assert(a[k] == (config.bindmount_rw@[k].src@, config.bindmount_rw@[k].dst@,
                false));
            } else {
                assert(ms[k] == b[k - nrw as int]);
                assert(b[k - nrw as int] == (config.bindmount_ro@[k - nrw as int].src@,
                config.bindmount_ro@[k - nrw as int].dst@, true));
            }
        }
        assert(jv =~= ms);
    }
    v
}

/// One mount the child will make.
#[derive(Debug, Clone, PartialEq, Eq)]
pub enum MountOp {
    /// Remount `/` private and recursive, so nothing propagates out.
    RootPrivate,
    /// Bind `src` at the already resolved destination, read-only when the
    /// flag is set.
    Bind { src: String, dst: String, readonly: bool },
    /// Mount a fresh `proc` at the already resolved destination.
    Proc { dst: String },
    /// Mount a fresh `tmpfs` at the already resolved destination.
    Tmpfs { dst: String },
}

/// The chroot of a configuration, as a view.
pub open spec fn chroot_view(c: SandboxConfig) -> Option<Seq<char>> {
    match c.chroot {
        Some(s) => Some(s@),
        None => None,
    }
}

/// The operations are exactly what the configuration prescribes, in the
/// contractual order: the root made private first; every bind mount next,
/// in plan order — read-write before read-only — each at its
/// chroot-resolved destination; then `proc`, then `tmpfs`, likewise
/// resolved.
pub open spec fn plan_matches(c: SandboxConfig, ops: Seq<MountOp>) -> bool {
    let jobs = mount_jobs_spec(c);
    let nb = jobs.len() as int;
    let np: int = if c.mount_proc is Some {
        1
    } else {
        0
    };
    let nt: int = if c.mount_tmpfs is Some {
        1
    } else {
        0
    };
    &&& ops.len() == 1 + nb + np + nt
    &&& ops[0] is RootPrivate
    &&& forall|i: int|
        0 <= i < nb ==> ((#[trigger] ops[1 + i]) matches MountOp::Bind { src, dst, readonly }
            && src@ == jobs[i].0 && dst@ == mount::resolved_dst(chroot_view(c), jobs[i].1)
            && readonly == jobs[i].2)
    &&& (c.mount_proc matches Some(p) ==> (ops[1 + nb] matches MountOp::Proc { dst } && dst@
        == mount::resolved_dst(chroot_view(c), p@)))
    &&& (c.mount_tmpfs matches Some(q) ==> (ops[1 + nb + np] matches MountOp::Tmpfs { dst }
        && dst@ == mount::resolved_dst(chroot_view(c), q@)))
}

/// Compute the mounts of a run. Destination resolution is the only part
/// that can fail; a failure names the mount kind it was resolving for,
/// and a configuration with nothing to resolve — no bind mounts, no
/// `proc`, no `tmpfs` — always yields its plan.
pub fn mount_plan(config: &SandboxConfig) -> (r: Result<Vec<MountOp>, ChildError>)
    requires
        config.valid(),
    ensures
        r matches Ok(ops) ==> plan_matches(*config, ops@),
        r matches Err(e) ==> (e.step == ChildStep::BindMountStep || e.step
            == ChildStep::MountProcStep || e.step == ChildStep::MountTmpfsStep),
        config.bindmount_rw@.len() == 0 && config.bindmount_ro@.len() == 0 && config.mount_proc
            is None && config.mount_tmpfs is None ==> r is Ok,
{
    let ghost ms = mount_jobs_spec(*config);
    proof {
        lemma_jobs_abs(*config);
    }
    let jobs = mount_jobs(config);
    proof {
        assert forall|k: int| 0 <= k < jobs@.len() implies is_abs((#[trigger] jobs@[k]).0.src@)
            && is_abs(jobs@[k].0.dst@) && (jobs@[k].0.src@, jobs@[k].0.dst@, jobs@[k].1)
            == ms[k] by {
            assert(job_views(jobs@)[k] == (jobs@[k].0.src@, jobs@[k].0.dst@, jobs@[k].1));
        }
    }
    let mut ops: Vec<MountOp> = Vec::new();
    ops.push(MountOp::RootPrivate);
    let n = jobs.len();
    let mut i: usize = 0;
    while i < n
        invariant
            n == jobs@.len(),
            i <= n,
            config.valid(),
            ms == mount_jobs_spec(*config),
            n == ms.len(),
            forall|k: int|
                0 <= k < n ==> is_abs((#[trigger] jobs@[k]).0.src@) && is_abs(jobs@[k].0.dst@) && (
                jobs@[k].0.src@,
                jobs@[k].0.dst@,
                jobs@[k].1,
            ) == ms[k],
            ops@.len() == 1 + i,
            ops@[0] is RootPrivate,
            forall|k: int|
                1 <= k <= i ==> ((#[trigger] ops@[k]) matches MountOp::Bind { src, dst, readonly }
                    && src@ == ms[k - 1].0 && dst@ == mount::resolved_dst(
                    chroot_view(*config),
                    ms[k - 1].1,
                ) && readonly == ms[k - 1].2),
        decreases n - i,
    {
        let job: &(BindMount, bool) = &jobs[i];
        let real_dst = match mount::resolve_dst(&config.chroot, job.0.dst.as_str()) {
            Ok(d) => d,
            Err(e) => {
                return Err(ChildError { step: ChildStep::BindMountStep, errno: e });
            },
        };
        ops.push(MountOp::Bind { src: job.0.src.clone(), dst: real_dst, readonly: job.1 });
        i += 1;
    }
    if let Some(p) = &config.mount_proc {
        let real_dst = match mount::resolve_dst(&config.chroot, p.as_str()) {
            Ok(d) => d,
            Err(e) => {
                return Err(ChildError { step: ChildStep::MountProcStep, errno: e });
            },
        };
        ops.push(MountOp::Proc { dst: real_dst });
    }
    if let Some(q) = &config.mount_tmpfs {
        let real_dst = match mount::resolve_dst(&config.chroot, q.as_str()) {
            Ok(d) => d,
            Err(e) => {
                return Err(ChildError { step: ChildStep::MountTmpfsStep, errno: e });
            },
        };
        ops.push(MountOp::Tmpfs { dst: real_dst });
    }
    proof {
        let nb = ms.len() as int;
        assert forall|k: int| 0 <= k < nb implies ((#[trigger] ops@[1 + k])
            matches MountOp::Bind { src, dst, readonly } && src@ == ms[k].0 && dst@
            == mount::resolved_dst(chroot_view(*config), ms[k].1) && readonly == ms[k].2) by {
            let j = 1 + k;
            assert(ops@[j] matches MountOp::Bind { src, dst, readonly } && src@ == ms[j - 1].0
                && dst@ == mount::resolved_dst(chroot_view(*config), ms[j - 1].1) && readonly
                == ms[j - 1].2);
        }
    }
    Ok(ops)
}

/// Perform one planned mount; a failure names the plan step it belongs
/// to.
fn execute_mount_op(op: &MountOp) -> (r: Result<(), ChildError>)
    ensures
        r matches Err(e) ==> (match *op {
            MountOp::RootPrivate => e.step == ChildStep::RootPrivate,
            MountOp::Bind { .. } => e.step == ChildStep::BindMountStep,
            MountOp::Proc { .. } => e.step == ChildStep::MountProcStep,
            MountOp::Tmpfs { .. } => e.step == ChildStep::MountTmpfsStep,
        }),
{
    match op {
        MountOp::RootPrivate => {
            match mount::make_root_private() {
                Ok(()) => Ok(()),
                Err(e) => Err(ChildError { step: ChildStep::RootPrivate, errno: e }),
            }
        },
        MountOp::Bind { src, dst, readonly } => {
            match mount::bind_mount(src.as_str(), dst.as_str(), true, *readonly) {
                Ok(_) => Ok(()),
                Err(e) => Err(ChildError { step: ChildStep::BindMountStep, errno: e }),
            }
        },
        MountOp::Proc { dst } => {
            match mount::mount_proc(dst.as_str()) {
                Ok(()) => Ok(()),
                Err(e) => Err(ChildError { step: ChildStep::MountProcStep, errno: e }),
            }
        },
        MountOp::Tmpfs { dst } => {
            match mount::mount_tmpfs(dst.as_str()) {
                Ok(()) => Ok(()),
                Err(e) => Err(ChildError { step: ChildStep::MountTmpfsStep, errno: e }),
            }
        },
    }
}

/// Install every configured mount by executing the plan in order, and
/// hand the executed plan back as the witness of what was mounted where.
/// Any failure carries one of the four mount steps — nothing else can
/// come out of the plan or its execution.
pub fn do_mount(config: &SandboxConfig) -> (r: Result<Vec<MountOp>, ChildError>)
    requires
        config.valid(),
    ensures
        r matches Ok(ops) ==> plan_matches(*config, ops@),
        r matches Err(e) ==> (e.step == ChildStep::RootPrivate || e.step
            == ChildStep::BindMountStep || e.step == ChildStep::MountProcStep || e.step
            == ChildStep::MountTmpfsStep),
{
    let ops = mount_plan(config)?;
    let n = ops.len();
    let mut i: usize = 0;
    while i < n
        invariant
            n == ops@.len(),
            i <= n,
            plan_matches(*config, ops@),
        decreases n - i,
    {
        execute_mount_op(&ops[i])?;
        i += 1;
    }
    Ok(ops)
}

/// Join the cpu and memory cgroups, write the memory limit when one is
/// configured, and — only when a pids limit is configured — write it and
/// join the pids cgroup too.
pub fn cg_setup_child(config: &SandboxConfig, cg: &Cgroup) -> (r: Result<(), i32>) {
    Cgroup::add_self_proc(cg.cpu())?;
    Cgroup::add_self_proc(cg.memory())?;
    if let Some(memory_limit) = config.cg_limit_memory {
        Cgroup::write_type(cg.memory(), "memory.limit_in_bytes", memory_limit)?;
    }
    if let Some(pids_max) = config.cg_limit_max_pids {
        Cgroup::write_type(cg.pids(), "pids.max", pids_max as u64)?;
        Cgroup::add_self_proc(cg.pids())?;
    }
    Ok(())
}

/// Install the configured hard rlimits, soft and hard set alike: CPU
/// seconds, address space, data segment, file size. With none of the
/// four configured, nothing is installed and nothing can fail.
pub fn set_hard_rlimit(config: &SandboxConfig) -> (r: Result<(), i32>)
    ensures
        config.rlimit_cpu is None && config.rlimit_as is None && config.rlimit_data is None
            && config.rlimit_fsize is None ==> r is Ok,
{
    if let Some(v) = config.rlimit_cpu {
        sys::sys_setrlimit_cpu(v as u64)?;
    }
    if let Some(v) = config.rlimit_as {
        sys::sys_setrlimit_as(v)?;
    }
    if let Some(v) = config.rlimit_data {
        sys::sys_setrlimit_data(v)?;
    }
    if let Some(v) = config.rlimit_fsize {
        sys::sys_setrlimit_fsize(v)?;
    }
    Ok(())
}

/// Drop identity, group first: set the group ids and the single-entry
/// supplementary list, then the user ids. After this nothing here can be
/// undone by the target.
///
/// The three closures stand for direct setresgid(2), setgroups(2) and
/// setresuid(2) kernel syscalls — raw, not the C library wrappers, whose
/// cross-thread signalling can deadlock in a just-cloned child. Each
/// takes the id, returns a negative value on failure, and leaves the
/// cause in errno.
pub fn set_id<FG: FnOnce(u32) -> i32, FGR: FnOnce(u32) -> i32, FU: FnOnce(u32) -> i32>(
    config: &SandboxConfig,
    raw_setresgid: FG,
    raw_setgroups_one: FGR,
    raw_setresuid: FU,
) -> (r: Result<(), i32>)
    requires
        config.gid matches Some(g) ==> call_requires(raw_setresgid, (g,)) && call_requires(
            raw_setgroups_one,
            (g,),
        ),
        config.uid matches Some(u) ==> call_requires(raw_setresuid, (u,)),
{
    if let Some(gid) = config.gid {
        if raw_setresgid(gid) < 0 {
            return Err(sys::sys_last_errno());
        }
        if raw_setgroups_one(gid) < 0 {
            return Err(sys::sys_last_errno());
        }
    }
    if let Some(uid) = config.uid {
        if raw_setresuid(uid) < 0 {
            return Err(sys::sys_last_errno());
        }
    }
    Ok(())
}

/// The whole in-child preparation sequence, in its contractual order:
/// mounts, execve vectors, cgroup attachment, chroot, rlimits, priority,
/// stdio, the binary check, the optional IPC filter, the metric reset,
/// and the identity drop. What remains for the caller is `execve` itself
/// with the returned vectors.
///
/// The closures stand for the raw calls the library cannot make:
/// `set_priority` performs setpriority(2) on the calling process with the
/// given value and returns a negative value on failure, leaving the cause
/// in errno; `install_ipc_filter` loads the IPC-forbidding seccomp
/// program and returns 0 on success or the errno; the three identity
/// closures are the direct kernel syscalls `set_id` documents.
///
/// The contract also pins what a failure can mean: an exec-args failure
/// happens exactly when an execve string holds a NUL, and the seccomp,
/// priority and chroot steps can only fail when they were configured at
/// all.
pub fn run_child<
    FPrio: FnOnce(i32) -> i32,
    FIpc: FnOnce() -> i32,
    FG: FnOnce(u32) -> i32,
    FGR: FnOnce(u32) -> i32,
    FU: FnOnce(u32) -> i32,
>(
    config: &SandboxConfig,
    cgroup: &Cgroup,
    parent_env: &Vec<(String, String)>,
    set_priority: FPrio,
    install_ipc_filter: FIpc,
    raw_setresgid: FG,
    raw_setgroups_one: FGR,
    raw_setresuid: FU,
) -> (r: Result<ExecArgs, ChildError>)
    requires
        config.valid(),
        config.priority matches Some(p) ==> call_requires(set_priority, (p as i32,)),
        config.seccomp_forbid_ipc ==> call_requires(install_ipc_filter, ()),
        config.gid matches Some(g) ==> call_requires(raw_setresgid, (g,)) && call_requires(
            raw_setgroups_one,
            (g,),
        ),
        config.uid matches Some(u) ==> call_requires(raw_setresuid, (u,)),
    ensures
        r matches Ok(ea) ==> exec_args_ok(*config, parent_view(parent_env@), ea),
        r matches Err(e) ==> (e.step == ChildStep::ExecArgsStep ==> !all_no_nul(
            exec_strings(*config, parent_view(parent_env@)),
        )),
        r matches Err(e) ==> (e.step == ChildStep::SeccompStep ==> config.seccomp_forbid_ipc),
        r matches Err(e) ==> (e.step == ChildStep::PriorityStep ==> config.priority is Some),
        r matches Err(e) ==> (e.step == ChildStep::ChrootStep ==> config.chroot is Some),
{
    let _mounted = do_mount(config)?;
    let exec_args = prepare_execve_args(config, parent_env)?;
    if let Err(e) = cg_setup_child(config, cgroup) {
        return Err(ChildError { step: ChildStep::CgroupStep, errno: e });
    }
    let reset = match cgroup_v1::cg_prepare_reset_metrics(cgroup) {
        Ok(h) => h,
        Err(e) => {
            return Err(ChildError { step: ChildStep::MetricsPrep, errno: e });
        },
    };
    if let Some(new_root) = &config.chroot {
        if let Err(e) = sys::sys_chroot(new_root.as_str()) {
            return Err(ChildError { step: ChildStep::ChrootStep, errno: e });
        }
        if let Err(e) = sys::sys_chdir("/") {
            return Err(ChildError { step: ChildStep::ChrootStep, errno: e });
        }
    }
    if let Err(e) = set_hard_rlimit(config) {
        return Err(ChildError { step: ChildStep::RlimitStep, errno: e });
    }
    if let Some(prio) = config.priority {
        let ret = set_priority(prio as i32);
        if ret < 0 {
            return Err(ChildError { step: ChildStep::PriorityStep, errno: sys::sys_last_errno() });
        }
    }
    if let Err(e) = redirect_stdio(config) {
        return Err(ChildError { step: ChildStep::StdioStep, errno: e });
    }
    if let Err(e) = sys::sys_access_ok(config.bin.as_str()) {
        return Err(ChildError { step: ChildStep::AccessBin, errno: e });
    }
    if config.seccomp_forbid_ipc {
        let ret = install_ipc_filter();
        if ret != 0 {
            return Err(ChildError { step: ChildStep::SeccompStep, errno: ret });
        }
    }
    if let Err(e) = cgroup_v1::cg_reset_metrics(reset) {
        return Err(ChildError { step: ChildStep::MetricsReset, errno: e });
    }
    if let Err(e) = set_id(config, raw_setresgid, raw_setgroups_one, raw_setresuid) {
        return Err(ChildError { step: ChildStep::SetIdStep, errno: e });
    }
    Ok(exec_args)
}

} // verus!
