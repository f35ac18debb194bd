//! The convenience builder around a configuration, and the rendering of a
//! configuration back into the command line of the standalone runner.

use vstd::prelude::*;
use crate::config::BindMount;
use crate::config::SandboxConfig;
use crate::text;
use crate::text::dec_chars;
use crate::text::dec_chars_signed;

verus! {

/// The views of a string vector.
pub open spec fn views(v: Seq<String>) -> Seq<Seq<char>> {
    v.map_values(|s: String| s@)
}

/// An option rendered as two arguments: the flag and the decimal value.
pub open spec fn num_opt(opt: Seq<char>, v: Option<int>) -> Seq<Seq<char>> {
    match v {
        Some(x) => seq![opt, dec_chars_signed(x)],
        None => Seq::empty(),
    }
}

/// An option rendered as two arguments: the flag and the string value.
pub open spec fn str_opt(opt: Seq<char>, v: Option<Seq<char>>) -> Seq<Seq<char>> {
    match v {
        Some(s) => seq![opt, s],
        None => Seq::empty(),
    }
}

/// A bare switch: present exactly when it is set.
pub open spec fn flag_opt(opt: Seq<char>, set: bool) -> Seq<Seq<char>> {
    if set {
        seq![opt]
    } else {
        Seq::empty()
    }
}

/// An option rendered as one argument: `flag=value`.
pub open spec fn eq_opt(opt: Seq<char>, v: Option<Seq<char>>) -> Seq<Seq<char>> {
    match v {
        Some(s) => seq![opt + "="@ + s],
        None => Seq::empty(),
    }
}

/// One bind mount argument: the source alone when the two paths agree,
/// else `src:dst`.
pub open spec fn bm_arg(src: Seq<char>, dst: Seq<char>) -> Seq<char> {
    if src == dst {
        src
    } else {
        src + ":"@ + dst
    }
}

/// A bind mount list rendered as flag/argument pairs.
pub open spec fn bm_opts(opt: Seq<char>, list: Seq<BindMount>) -> Seq<Seq<char>>
    decreases list.len(),
{
    if list.len() == 0 {
        Seq::empty()
    } else {
        seq![opt, bm_arg(list[0].src@, list[0].dst@)] + bm_opts(opt, list.drop_first())
    }
}

/// A repeated option: the flag before each value.
pub open spec fn multi_opt(opt: Seq<char>, list: Seq<Seq<char>>) -> Seq<Seq<char>>
    decreases list.len(),
{
    if list.len() == 0 {
        Seq::empty()
    } else {
        seq![opt, list[0]] + multi_opt(opt, list.drop_first())
    }
}

/// A `u32` option as a spec integer.
pub open spec fn int_of_u32(v: Option<u32>) -> Option<int> {
    match v {
        Some(x) => Some(x as int),
        None => None,
    }
}

/// A `u64` option as a spec integer.
pub open spec fn int_of_u64(v: Option<u64>) -> Option<int> {
    match v {
        Some(x) => Some(x as int),
        None => None,
    }
}

/// An `i32` option as a spec integer.
pub open spec fn int_of_i32(v: Option<i32>) -> Option<int> {
    match v {
        Some(x) => Some(x as int),
        None => None,
    }
}

/// An `i8` option as a spec integer.
pub open spec fn int_of_i8(v: Option<i8>) -> Option<int> {
    match v {
        Some(x) => Some(x as int),
        None => None,
    }
}

/// A string option as its view.
pub open spec fn view_of(v: Option<String>) -> Option<Seq<char>> {
    match v {
        Some(s) => Some(s@),
        None => None,
    }
}

/// Append a `u32` option.
fn push_num_u32(out: &mut Vec<String>, opt: &str, v: &Option<u32>)
    ensures
        views(final(out)@) == views(old(out)@) + num_opt(opt@, int_of_u32(*v)),
{
    if let Some(x) = v {
        out.push(opt.to_owned());
        out.push(text::u64_to_string(*x as u64));
    }
    proof {
        assert(views(out@) =~= views(old(out)@) + num_opt(opt@, int_of_u32(*v)));
    }
}

/// Append a `u64` option.
fn push_num_u64(out: &mut Vec<String>, opt: &str, v: &Option<u64>)
    ensures
        views(final(out)@) == views(old(out)@) + num_opt(opt@, int_of_u64(*v)),
{
    if let Some(x) = v {
        out.push(opt.to_owned());
        out.push(text::u64_to_string(*x));
    }
    proof {
        assert(views(out@) =~= views(old(out)@) + num_opt(opt@, int_of_u64(*v)));
    }
}

/// Append an `i32` option.
fn push_num_i32(out: &mut Vec<String>, opt: &str, v: &Option<i32>)
    ensures
        views(final(out)@) == views(old(out)@) + num_opt(opt@, int_of_i32(*v)),
{
    if let Some(x) = v {
        out.push(opt.to_owned());
        out.push(text::i64_to_string(*x as i64));
    }
    proof {
        assert(views(out@) =~= views(old(out)@) + num_opt(opt@, int_of_i32(*v)));
    }
}

/// Append an `i8` option.
fn push_num_i8(out: &mut Vec<String>, opt: &str, v: &Option<i8>)
    ensures
        views(final(out)@) == views(old(out)@) + num_opt(opt@, int_of_i8(*v)),
{
    if let Some(x) = v {
        out.push(opt.to_owned());
        out.push(text::i64_to_string(*x as i64));
    }
    proof {
        assert(views(out@) =~= views(old(out)@) + num_opt(opt@, int_of_i8(*v)));
    }
}

/// Append a bare switch.
fn push_flag(out: &mut Vec<String>, opt: &str, set: bool)
    ensures
        views(final(out)@) == views(old(out)@) + flag_opt(opt@, set),
{
    if set {
        out.push(opt.to_owned());
    }
    proof {
        assert(views(out@) =~= views(old(out)@) + flag_opt(opt@, set));
    }
}

/// Append a two-argument string option.
fn push_str_opt(out: &mut Vec<String>, opt: &str, v: &Option<String>)
    ensures
        views(final(out)@) == views(old(out)@) + str_opt(opt@, view_of(*v)),
{
    if let Some(s) = v {
        out.push(opt.to_owned());
        out.push(s.clone());
    }
    proof {
        assert(views(out@) =~= views(old(out)@) + str_opt(opt@, view_of(*v)));
    }
}

/// Append a `flag=value` option.
fn push_eq_opt(out: &mut Vec<String>, opt: &str, v: &Option<String>)
    ensures
        views(final(out)@) == views(old(out)@) + eq_opt(opt@, view_of(*v)),
{
    if let Some(s) = v {
        let mut joined = opt.to_owned();
        joined.append("=");
        joined.append(s.as_str());
        out.push(joined);
    }
    proof {
        assert(views(out@) =~= views(old(out)@) + eq_opt(opt@, view_of(*v)));
    }
}

/// Append a bind mount list.
fn push_bm_opts(out: &mut Vec<String>, opt: &str, list: &Vec<BindMount>)
    ensures
        views(final(out)@) == views(old(out)@) + bm_opts(opt@, list@),
{
    let n = list.len();
    let mut i: usize = 0;
    proof {
        assert(list@.subrange(0, n as int) =~= list@);
    }
    while i < n
        invariant
            n == list@.len(),
            i <= n,
            views(out@) + bm_opts(opt@, list@.subrange(i as int, n as int)) == views(old(out)@)
                + bm_opts(opt@, list@),
        decreases n - i,
    {
        proof {
            assert(list@.subrange(i as int, n as int).drop_first() =~= list@.subrange(
                i + 1,
                n as int,
            ));
            assert(list@.subrange(i as int, n as int)[0] == list@[i as int]);
        }
        let ghost out_pre = out@;
        let m: &BindMount = &list[i];
        out.push(opt.to_owned());
        if m.src.eq(&m.dst) {
            out.push(m.src.clone());
        } else {
            let mut joined = m.src.clone();
            joined.append(":");
            joined.append(m.dst.as_str());
            out.push(joined);
        }
        i += 1;
        proof {
            assert(views(out@) =~= views(out_pre) + seq![opt@, bm_arg(
                list@[i - 1].src@,
                list@[i - 1].dst@,
            )]);
            assert(views(out@) + bm_opts(opt@, list@.subrange(i as int, n as int)) =~= views(
                old(out)@,
            ) + bm_opts(opt@, list@));
        }
    }
    proof {
        assert(list@.subrange(n as int, n as int) =~= Seq::<BindMount>::empty());
        assert(views(out@) + bm_opts(opt@, Seq::empty()) =~= views(out@));
    }
}

/// Append a repeated option.
fn push_multi_opt(out: &mut Vec<String>, opt: &str, list: &Vec<String>)
    ensures
        views(final(out)@) == views(old(out)@) + multi_opt(opt@, views(list@)),
{
    let ghost lv = views(list@);
    let n = list.len();
    let mut i: usize = 0;
    proof {
        assert(lv.subrange(0, n as int) =~= lv);
    }
    while i < n
        invariant
            n == list@.len(),
            lv == views(list@),
            i <= n,
            views(out@) + multi_opt(opt@, lv.subrange(i as int, n as int)) == views(old(out)@)
                + multi_opt(opt@, lv),
        decreases n - i,
    {
        proof {
            assert(lv.subrange(i as int, n as int).drop_first() =~= lv.subrange(i + 1, n as int));
            assert(lv.subrange(i as int, n as int)[0] == lv[i as int]);
        }
        let ghost out_pre = out@;
        out.push(opt.to_owned());
        out.push(list[i].clone());
        i += 1;
        proof {
            assert(views(out@) =~= views(out_pre) + seq![opt@, lv[i - 1]]);
            assert(views(out@) + multi_opt(opt@, lv.subrange(i as int, n as int)) =~= views(
                old(out)@,
            ) + multi_opt(opt@, lv));
        }
    }
    proof {
        assert(lv.subrange(n as int, n as int) =~= Seq::<Seq<char>>::empty());
        assert(views(out@) + multi_opt(opt@, Seq::empty()) =~= views(out@));
    }
}

/// The full command line of the standalone runner for a configuration,
/// without the program name itself: every set option rendered in a fixed
/// order, then `--`, the binary, and its arguments.
pub open spec fn cli_args_spec(c: SandboxConfig) -> Seq<Seq<char>> {
    num_opt("--uid"@, int_of_u32(c.uid)) + num_opt("--gid"@, int_of_u32(c.gid)) + num_opt(
        "--rlimit-cpu"@,
        int_of_u32(c.rlimit_cpu),
    ) + num_opt("--rlimit-as"@, int_of_u64(c.rlimit_as)) + num_opt(
        "--rlimit-data"@,
        int_of_u64(c.rlimit_data),
    ) + num_opt("--rlimit-fsize"@, int_of_u64(c.rlimit_fsize)) + num_opt(
        "--cg-limit-memory"@,
        int_of_u64(c.cg_limit_memory),
    ) + num_opt("--cg-limit-max-pids"@, int_of_u32(c.cg_limit_max_pids)) + bm_opts(
        "--bindmount-rw"@,
        c.bindmount_rw@,
    ) + bm_opts("-b"@, c.bindmount_ro@) + eq_opt("--mount-proc"@, view_of(c.mount_proc)) + eq_opt(
        "--mount-tmpfs"@,
        view_of(c.mount_tmpfs),
    ) + num_opt("--priority"@, int_of_i8(c.priority)) + num_opt(
        "--stdin-fd"@,
        int_of_i32(c.stdin_fd),
    ) + num_opt("--stdout-fd"@, int_of_i32(c.stdout_fd)) + num_opt(
        "--stderr-fd"@,
        int_of_i32(c.stderr_fd),
    ) + num_opt("-t"@, int_of_u64(c.real_time_limit)) + str_opt("-c"@, view_of(c.chroot))
        + multi_opt("-e"@, c.env@.map_values(|e: String| e@)) + str_opt(
        "--stdin"@,
        view_of(c.stdin),
    ) + str_opt("--stdout"@, view_of(c.stdout)) + str_opt("--stderr"@, view_of(c.stderr))
        + flag_opt("--seccomp-forbid-ipc"@, c.seccomp_forbid_ipc) + seq![
        "--"@,
        c.bin@,
    ] + c.args@.map_values(|a: String| a@)
}

/// Render a configuration as the argument list of the standalone runner.
#[verifier::rlimit(60)]
pub fn to_cli_args(config: &SandboxConfig) -> (r: Vec<String>)
    ensures
        views(r@) == cli_args_spec(*config),
{
    let mut out: Vec<String> = Vec::new();
    push_num_u32(&mut out, "--uid", &config.uid);
    push_num_u32(&mut out, "--gid", &config.gid);
    push_num_u32(&mut out, "--rlimit-cpu", &config.rlimit_cpu);
    push_num_u64(&mut out, "--rlimit-as", &config.rlimit_as);
    push_num_u64(&mut out, "--rlimit-data", &config.rlimit_data);
    push_num_u64(&mut out, "--rlimit-fsize", &config.rlimit_fsize);
    push_num_u64(&mut out, "--cg-limit-memory", &config.cg_limit_memory);
    push_num_u32(&mut out, "--cg-limit-max-pids", &config.cg_limit_max_pids);
    push_bm_opts(&mut out, "--bindmount-rw", &config.bindmount_rw);
    push_bm_opts(&mut out, "-b", &config.bindmount_ro);
    push_eq_opt(&mut out, "--mount-proc", &config.mount_proc);
    push_eq_opt(&mut out, "--mount-tmpfs", &config.mount_tmpfs);
    push_num_i8(&mut out, "--priority", &config.priority);
    push_num_i32(&mut out, "--stdin-fd", &config.stdin_fd);
    push_num_i32(&mut out, "--stdout-fd", &config.stdout_fd);
    push_num_i32(&mut out, "--stderr-fd", &config.stderr_fd);
    push_num_u64(&mut out, "-t", &config.real_time_limit);
    push_str_opt(&mut out, "-c", &config.chroot);
    push_multi_opt(&mut out, "-e", &config.env);
    push_str_opt(&mut out, "--stdin", &config.stdin);
    push_str_opt(&mut out, "--stdout", &config.stdout);
    push_str_opt(&mut out, "--stderr", &config.stderr);
    push_flag(&mut out, "--seccomp-forbid-ipc", config.seccomp_forbid_ipc);
    out.push("--".to_owned());
    out.push(config.bin.clone());
    let ghost before_args = out@;
    let n = config.args.len();
    let mut i: usize = 0;
    proof {
        assert(views(out@) =~= views(before_args) + config.args@.subrange(0, 0).map_values(
            |a: String| a@,
        ));
    }
    while i < n
        invariant
            n == config.args@.len(),
            i <= n,
            views(out@) == views(before_args) + config.args@.subrange(0, i as int).map_values(
                |a: String| a@,
            ),
        decreases n - i,
    {
        let ghost out_pre = out@;
        out.push(config.args[i].clone());
        i += 1;
        proof {
            assert(views(out@) =~= views(out_pre).push(config.args@[i - 1]@));
            assert(config.args@.subrange(0, i as int).map_values(|a: String| a@) =~= config.args@
                .subrange(0, i - 1).map_values(|a: String| a@).push(config.args@[i - 1]@));
            assert(views(out@) =~= views(before_args) + config.args@.subrange(0, i as int)
                .map_values(|a: String| a@));
        }
    }
    proof {
        assert(config.args@.subrange(0, n as int) =~= config.args@);
        assert(views(out@) =~= cli_args_spec(*config));
    }
    out
}

/// A builder over a configuration, for callers that assemble a run in
/// code.
pub struct Command {
    /// The configuration being assembled.
    pub config: SandboxConfig,
}

impl Command {
    /// A fresh command for one binary: everything else unset.
    pub fn new(bin: String) -> (r: Self)
        ensures
            r.config.bin@ == bin@,
            r.config.args@.len() == 0,
            r.config.env@.len() == 0,
            r.config.chroot is None,
            r.config.uid is None,
            r.config.gid is None,
            r.config.stdin is None,
            r.config.stdout is None,
            r.config.stderr is None,
            r.config.stdin_fd is None,
            r.config.stdout_fd is None,
            r.config.stderr_fd is None,
            r.config.real_time_limit is None,
            r.config.rlimit_cpu is None,
            r.config.rlimit_as is None,
            r.config.rlimit_data is None,
            r.config.rlimit_fsize is None,
            r.config.cg_limit_memory is None,
            r.config.cg_limit_max_pids is None,
            r.config.bindmount_rw@.len() == 0,
            r.config.bindmount_ro@.len() == 0,
            r.config.mount_proc is None,
            r.config.mount_tmpfs is None,
            r.config.priority is None,
            !r.config.seccomp_forbid_ipc,
            r.config.valid(),
    {
        Self {
            config: SandboxConfig {
                bin,
                args: Vec::new(),
                env: Vec::new(),
                chroot: None,
                uid: None,
                gid: None,
                stdin: None,
                stdout: None,
                stderr: None,
                stdin_fd: None,
                stdout_fd: None,
                stderr_fd: None,
                real_time_limit: None,
                rlimit_cpu: None,
                rlimit_as: None,
                rlimit_data: None,
                rlimit_fsize: None,
                cg_limit_memory: None,
                cg_limit_max_pids: None,
                bindmount_rw: Vec::new(),
                bindmount_ro: Vec::new(),
                mount_proc: None,
                mount_tmpfs: None,
                priority: None,
                seccomp_forbid_ipc: false,
            },
        }
    }

    /// Append one argument.
    pub fn arg(&mut self, a: String)
        ensures
            final(self).config.args@ == old(self).config.args@.push(a),
    {
        self.config.args.push(a);
    }

    /// Append one argument when the condition holds.
    pub fn arg_if(&mut self, cond: bool, a: String)
        ensures
            cond ==> final(self).config.args@ == old(self).config.args@.push(a),
            !cond ==> final(self).config.args@ == old(self).config.args@,
    {
        if cond {
            self.arg(a);
        }
    }

    /// Ask to inherit one variable from the calling environment.
    pub fn inherit_env(&mut self, k: String)
        ensures
            final(self).config.env@ == old(self).config.env@.push(k),
    {
        self.config.env.push(k);
    }

    /// Add one literal `NAME=value` entry.
    pub fn add_env(&mut self, k: String, v: &str)
        ensures
            final(self).config.env@.len() == old(self).config.env@.len() + 1,
            final(self).config.env@.last()@ == k@ + "="@ + v@,
    {
        let mut e = k;
        e.append("=");
        e.append(v);
        self.config.env.push(e);
    }

    /// Add one read-only bind mount.
    pub fn bindmount_ro(&mut self, src: String, dst: String)
        ensures
            final(self).config.bindmount_ro@.len() == old(self).config.bindmount_ro@.len() + 1,
            final(self).config.bindmount_ro@.last().src@ == src@,
            final(self).config.bindmount_ro@.last().dst@ == dst@,
    {
        self.config.bindmount_ro.push(BindMount { src, dst });
    }

    /// Set the chroot directory.
    pub fn chroot(&mut self, chroot: String)
        ensures
            final(self).config.chroot matches Some(c) && c@ == chroot@,
    {
        self.config.chroot = Some(chroot);
    }

    /// Set all three stream paths at once.
    pub fn stdio(&mut self, stdin: String, stdout: String, stderr: String)
        ensures
            final(self).config.stdin matches Some(s) && s@ == stdin@,
            final(self).config.stdout matches Some(s) && s@ == stdout@,
            final(self).config.stderr matches Some(s) && s@ == stderr@,
    {
        self.config.stdin = Some(stdin);
        self.config.stdout = Some(stdout);
        self.config.stderr = Some(stderr);
    }

    /// Set the `proc` mount point.
    pub fn mount_proc(&mut self, path: String)
        ensures
            final(self).config.mount_proc matches Some(p) && p@ == path@,
    {
        self.config.mount_proc = Some(path);
    }
}

} // verus!
