//! The lighter target runner that supervises through fork and wait4: its
//! limits, its seccomp program, the extra rule restricting what the target
//! may itself execute, and the decoding of the raw wait status and rusage
//! numbers. The fork, the `execvp` and the wait call itself live with the
//! caller.

use vstd::prelude::*;
use crate::child::has_char;
use crate::child::no_nul;
use crate::seccomp;
use crate::seccomp::Action;
use crate::seccomp::CmpOp;
use crate::seccomp::Comparator;
use crate::seccomp::SeccompRule;
use crate::seccomp::TargetRule;
use crate::sys;

verus! {

/// The resource limits of a target run.
#[derive(Debug, Clone, Copy, PartialEq, Eq, Structural)]
pub struct TargetLimit {
    /// Wall-clock limit, in microseconds.
    pub max_real_time: Option<u64>,
    /// RLIMIT_CPU, in seconds.
    pub max_cpu_time: Option<u64>,
    /// RLIMIT_AS, in bytes.
    pub max_memory: Option<u64>,
    /// RLIMIT_FSIZE, in bytes.
    pub max_output_size: Option<u64>,
    /// RLIMIT_NPROC, a process count.
    pub max_process_number: Option<u64>,
    /// RLIMIT_STACK, in bytes.
    pub max_stack_size: Option<u64>,
}

impl TargetLimit {
    /// No limits at all.
    pub fn new() -> (r: Self)
        ensures
            r.max_real_time is None,
            r.max_cpu_time is None,
            r.max_memory is None,
            r.max_output_size is None,
            r.max_process_number is None,
            r.max_stack_size is None,
    {
        Self {
            max_real_time: None,
            max_cpu_time: None,
            max_memory: None,
            max_output_size: None,
            max_process_number: None,
            max_stack_size: None,
        }
    }

    /// Install every configured rlimit, soft and hard set alike. With no
    /// limit configured, nothing is installed and nothing can fail.
    pub fn apply_rlimit(&self) -> (r: Result<(), i32>)
        ensures
            self.max_cpu_time is None && self.max_memory is None && self.max_output_size is None
                && self.max_process_number is None && self.max_stack_size is None ==> r is Ok,
    {
        if let Some(n) = self.max_cpu_time {
            sys::sys_setrlimit_cpu(n)?;
        }
        if let Some(n) = self.max_memory {
            sys::sys_setrlimit_as(n)?;
        }
        if let Some(n) = self.max_output_size {
            sys::sys_setrlimit_fsize(n)?;
        }
        if let Some(n) = self.max_process_number {
            sys::sys_setrlimit_nproc(n)?;
        }
        if let Some(n) = self.max_stack_size {
            sys::sys_setrlimit_stack(n)?;
        }
        Ok(())
    }
}

/// How a finished target run ended and what it consumed.
#[derive(Debug, Clone, Copy, PartialEq, Eq, Structural)]
pub struct TargetStatus {
    /// Exit code when the target exited on its own.
    pub code: Option<i32>,
    /// Signal number when the target was killed.
    pub signal: Option<i32>,
    /// Wall-clock time, in microseconds.
    pub real_time: u64,
    /// User CPU time, in microseconds.
    pub user_time: u64,
    /// System CPU time, in microseconds.
    pub sys_time: u64,
    /// Peak resident memory, in kilobytes.
    pub memory: u64,
}

/// A target to run: the binary, its arguments, identity, stdio paths,
/// limits and seccomp program.
#[derive(Debug, Clone)]
pub struct Target {
    /// Path of the binary, free of NUL characters.
    pub bin_path: String,
    /// Arguments after the binary itself.
    pub args: Vec<String>,
    /// Literal `NAME=value` entries added to the target's environment.
    pub envs: Vec<String>,
    /// User id to drop to.
    pub uid: Option<u32>,
    /// Group id to drop to.
    pub gid: Option<u32>,
    /// Path opened read-only on fd 0.
    pub input_path: Option<String>,
    /// Path created and truncated on fd 1.
    pub output_path: Option<String>,
    /// Path created and truncated on fd 2.
    pub error_path: Option<String>,
    /// The resource limits.
    pub limit: TargetLimit,
    /// The seccomp program.
    pub rule: TargetRule,
    /// Whether the target may call `execve` itself beyond its initial one.
    pub allow_target_execve: bool,
    /// Whether the caller's environment is withheld from the target.
    pub forbid_inherited_env: bool,
}

impl Target {
    /// A fresh target for one binary: no arguments, no own environment
    /// entries, an inherited environment, no identity change, inherited
    /// stdio, no limits, an allow-everything program, and the target's
    /// own `execve` allowed. Rejected when the path holds a NUL.
    pub fn new(bin_path: &str) -> (r: Result<Self, ()>)
        ensures
            r is Ok <==> no_nul(bin_path@),
            r matches Ok(t) ==> {
                &&& t.bin_path@ == bin_path@
                &&& t.args@.len() == 0
                &&& t.envs@.len() == 0
                &&& !t.forbid_inherited_env
                &&& t.uid is None
                &&& t.gid is None
                &&& t.input_path is None
                &&& t.output_path is None
                &&& t.error_path is None
                &&& t.limit.max_real_time is None
                &&& t.limit.max_cpu_time is None
                &&& t.limit.max_memory is None
                &&& t.limit.max_output_size is None
                &&& t.limit.max_process_number is None
                &&& t.limit.max_stack_size is None
                &&& t.rule.default_action is Allow
                &&& t.rule.seccomp_rules@.len() == 0
                &&& t.allow_target_execve
            },
    {
        if crate::text::find_char(bin_path, '\0').is_some() {
            assert(has_char(bin_path@, '\0'));
            return Err(());
        }
        assert(no_nul(bin_path@));
        Ok(
            Self {
                bin_path: bin_path.to_owned(),
                args: Vec::new(),
                envs: Vec::new(),
                uid: None,
                gid: None,
                input_path: None,
                output_path: None,
                error_path: None,
                limit: TargetLimit::new(),
                rule: TargetRule::new(),
                allow_target_execve: true,
                forbid_inherited_env: false,
            },
        )
    }

    /// Set the path placed on fd 1.
    pub fn stdout(&mut self, path: &str)
        ensures
            final(self).output_path matches Some(p) && p@ == path@,
            final(self).bin_path == old(self).bin_path,
            final(self).args == old(self).args,
            final(self).envs == old(self).envs,
            final(self).forbid_inherited_env == old(self).forbid_inherited_env,
            final(self).uid == old(self).uid,
            final(self).gid == old(self).gid,
            final(self).input_path == old(self).input_path,
            final(self).error_path == old(self).error_path,
            final(self).limit == old(self).limit,
            final(self).rule == old(self).rule,
            final(self).allow_target_execve == old(self).allow_target_execve,
    {
        self.output_path = Some(path.to_owned());
    }
}

/// The entries of a caller environment, each rendered as `NAME=value`.
pub open spec fn rendered_env(parent: Seq<(Seq<char>, Seq<char>)>) -> Seq<Seq<char>> {
    parent.map_values(|p: (Seq<char>, Seq<char>)| p.0 + "="@ + p.1)
}

/// The environment vector a target run hands to exec — or `None`, meaning
/// the caller's environment is simply inherited. A vector is built
/// exactly when inheritance is forbidden or own entries exist; it is the
/// caller's entries — none when inheritance is forbidden — followed by
/// the target's own, in order.
pub fn target_envp(own: &Vec<String>, parent: &Vec<(String, String)>, forbid_inherited: bool) -> (r:
    Option<Vec<String>>)
    ensures
        r is Some <==> (forbid_inherited || own@.len() > 0),
        r matches Some(v) ==> v@.map_values(|s: String| s@) == (if forbid_inherited {
            Seq::<Seq<char>>::empty()
        } else {
            rendered_env(crate::child::parent_view(parent@))
        }) + own@.map_values(|s: String| s@),
{
    if !forbid_inherited && own.len() == 0 {
        return None;
    }
    let ghost pv = crate::child::parent_view(parent@);
    let mut out: Vec<String> = Vec::new();
    if !forbid_inherited {
        let n = parent.len();
        let mut i: usize = 0;
        proof {
            assert(out@.map_values(|s: String| s@) =~= rendered_env(pv.subrange(0, 0)));
        }
        while i < n
            invariant
                n == parent@.len(),
                pv == crate::child::parent_view(parent@),
                i <= n,
                out@.map_values(|s: String| s@) == rendered_env(pv.subrange(0, i as int)),
            decreases n - i,
        {
            let ghost out_pre = out@;
            let mut e = parent[i].0.clone();
            e.append("=");
            e.append(parent[i].1.as_str());
            assert(e@ == pv[i as int].0 + "="@ + pv[i as int].1);
            let ghost ee = e;
            out.push(e);
            i += 1;
            proof {
                assert(out@.map_values(|s: String| s@) =~= out_pre.map_values(
                    |s: String| s@,
                ).push(ee@));
                assert(rendered_env(pv.subrange(0, i as int)) =~= rendered_env(
                    pv.subrange(0, i - 1),
                ).push(pv[i - 1].0 + "="@ + pv[i - 1].1));
                assert(out@.map_values(|s: String| s@) =~= rendered_env(
                    pv.subrange(0, i as int),
                ));
            }
        }
        proof {
            assert(pv.subrange(0, n as int) =~= pv);
        }
    }
    let ghost head = out@.map_values(|s: String| s@);
    let m = own.len();
    let mut j: usize = 0;
    proof {
        assert(out@.map_values(|s: String| s@) =~= head + own@.subrange(0, 0).map_values(
            |s: String| s@,
        ));
    }
    while j < m
        invariant
            m == own@.len(),
            j <= m,
            out@.map_values(|s: String| s@) == head + own@.subrange(0, j as int).map_values(
                |s: String| s@,
            ),
        decreases m - j,
    {
        let ghost out_pre = out@;
        out.push(own[j].clone());
        j += 1;
        proof {
            assert(out@.map_values(|s: String| s@) =~= out_pre.map_values(|s: String| s@).push(
                own@[j - 1]@,
            ));
            assert(own@.subrange(0, j as int).map_values(|s: String| s@) =~= own@.subrange(
                0,
                j - 1,
            ).map_values(|s: String| s@).push(own@[j - 1]@));
            assert(out@.map_values(|s: String| s@) =~= head + own@.subrange(0, j as int)
                .map_values(|s: String| s@));
        }
    }
    proof {
        assert(own@.subrange(0, m as int) =~= own@);
        assert(out@.map_values(|s: String| s@) =~= head + own@.map_values(|s: String| s@));
    }
    Some(out)
}

/// The extra rule that gates the target's own `execve`, as a function of
/// the program's default action and the address of `argv[0]`:
/// - an allowing program that permits `execve` needs nothing;
/// - an allowing program that forbids it kills any `execve` whose first
///   argument is not `argv[0]` itself;
/// - a killing program must allow `execve` — unconditionally when the
///   target may exec, else only with `argv[0]` as its first argument.
pub fn execve_gate(default_action: Action, allow_target_execve: bool, bin_arg: u64) -> (r: Option<
    SeccompRule,
>)
    ensures
        default_action is Allow && allow_target_execve ==> r is None,
        default_action is Allow && !allow_target_execve ==> (r matches Some(rule) && {
            &&& rule.action is Kill
            &&& rule.syscall == seccomp::SYS_EXECVE
            &&& rule.comparators@ =~= seq![Comparator { arg: 0, op: CmpOp::Ne(bin_arg) }]
        }),
        !(default_action is Allow) ==> (r matches Some(rule) && {
            &&& rule.action is Allow
            &&& rule.syscall == seccomp::SYS_EXECVE
            &&& if allow_target_execve {
                rule.comparators@ =~= Seq::<Comparator>::empty()
            } else {
                rule.comparators@ =~= seq![Comparator { arg: 0, op: CmpOp::Eq(bin_arg) }]
            }
        }),
{
    match default_action {
        Action::Allow => {
            if allow_target_execve {
                None
            } else {
                let mut comps: Vec<Comparator> = Vec::new();
                comps.push(Comparator { arg: 0, op: CmpOp::Ne(bin_arg) });
                Some(
                    SeccompRule {
                        action: Action::Kill,
                        syscall: seccomp::SYS_EXECVE,
                        comparators: comps,
                    },
                )
            }
        },
        _ => {
            let mut comps: Vec<Comparator> = Vec::new();
            if !allow_target_execve {
                comps.push(Comparator { arg: 0, op: CmpOp::Eq(bin_arg) });
            }
            Some(
                SeccompRule {
                    action: Action::Allow,
                    syscall: seccomp::SYS_EXECVE,
                    comparators: comps,
                },
            )
        },
    }
}

/// The low bits of a raw wait status that carry the terminating signal;
/// zero means a voluntary exit.
pub const WSTATUS_SIG_MASK: u32 = 0x7f;

/// Decode a raw wait(2) status word: `(Some(code), None)` for a voluntary
/// exit — the code sits in bits 8 through 15 — and `(None, Some(signal))`
/// for a killed child.
pub fn decode_wait_status(status: u32) -> (r: (Option<i32>, Option<i32>))
    ensures
        status & WSTATUS_SIG_MASK == 0 ==> r == (
            Some(((status >> 8) & 0xff) as i32),
            None::<i32>,
        ),
        status & WSTATUS_SIG_MASK != 0 ==> r == (
            None::<i32>,
            Some((status & WSTATUS_SIG_MASK) as i32),
        ),
{
    let sig = status & WSTATUS_SIG_MASK;
    if sig == 0 {
        (Some(((status >> 8) & 0xff) as i32), None)
    } else {
        (None, Some(sig as i32))
    }
}

/// Combine the seconds and microseconds of one rusage time into
/// microseconds.
pub fn usec_of(sec: u64, usec: u64) -> (r: u64)
    requires
        sec <= 0xffff_ffff,
        usec < 1_000_000,
    ensures
        r == sec * 1_000_000 + usec,
{
    sec * 1_000_000 + usec
}

} // verus!
