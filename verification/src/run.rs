//! The supervisor side of a run: naming the cgroup, combining the
//! teardown results, assembling the output record, and the post-clone
//! supervision sequence.

use vstd::prelude::*;
use crate::cgroup_v1;
use crate::cgroup_v1::Cgroup;
use crate::cgroup_v1::Metrics;
use crate::config::ConfigError;
use crate::config::SandboxOutput;
use crate::pipe::PipeRx;
use crate::proc;
use crate::text;

verus! {

/// The cgroup name of a run: a fixed prefix and a random nonce, so
/// concurrent runs cannot collide.
pub open spec fn cgroup_name_spec(nonce: u32) -> Seq<char> {
    "carapace_"@ + text::dec_chars(nonce as int)
}

/// Render the cgroup name for a nonce.
pub fn cgroup_name(nonce: u32) -> (r: String)
    ensures
        r@ == cgroup_name_spec(nonce),
{
    let mut s: String = "carapace_".to_owned();
    let d = text::u64_to_string(nonce as u64);
    s.append(d.as_str());
    s
}

/// Distinct nonces name distinct cgroups, so concurrent runs in one
/// process image never share a group, and a residual directory is
/// attributable to exactly one run.
pub proof fn lemma_cgroup_names_unique(n1: u32, n2: u32)
    requires
        n1 != n2,
    ensures
        cgroup_name_spec(n1) != cgroup_name_spec(n2),
{
    text::lemma_dec_chars_inj(n1 as int, n2 as int);
    text::lemma_concat_inj("carapace_"@, text::dec_chars(n1 as int), text::dec_chars(n2 as int));
}

/// A cgroup name under a fresh random nonce.
pub fn fresh_cgroup_name() -> (r: String)
    ensures
        exists|n: u32| r@ == cgroup_name_spec(n),
{
    let nonce: u32 = rand::random();
    let r = cgroup_name(nonce);
    proof {
        assert(r@ == cgroup_name_spec(nonce));
    }
    r
}

/// Why a run failed.
#[derive(Debug, Clone, PartialEq, Eq)]
pub enum RunError {
    /// The configuration was rejected; nothing was created.
    Validation(ConfigError),
    /// Creating the cgroup group failed, with the errno.
    CgroupCreate(i32),
    /// Creating the error pipe failed, with the errno.
    PipeCreate(i32),
    /// The clone itself failed, with the errno.
    Fork(i32),
    /// The child failed before `execve`; the payload is its diagnostic.
    ChildSetup(Vec<u8>),
    /// Reading the error pipe failed, with the errno.
    PipeRead(i32),
    /// Waiting for the child failed, with the errno.
    Wait(i32),
    /// Collecting the cgroup metrics failed, with the errno.
    Collect(i32),
    /// Tearing the cgroup down failed, with the errno.
    Cleanup(i32),
}

/// Combine the teardown results as the supervisor must: collection ran
/// first, so its failure wins; a cleanup failure surfaces only when
/// collection succeeded; cleanup has run in every case.
pub fn combine_teardown(collected: Result<Metrics, i32>, cleaned: Result<(), i32>) -> (r: Result<
    Metrics,
    RunError,
>)
    ensures
        collected matches Err(e) ==> r == Err::<Metrics, RunError>(RunError::Collect(e)),
        collected is Ok ==> (cleaned matches Err(e) ==> r == Err::<Metrics, RunError>(
            RunError::Cleanup(e),
        )),
        cleaned is Ok ==> (collected matches Ok(m) ==> r == Ok::<Metrics, RunError>(m)),
{
    match collected {
        Err(e) => Err(RunError::Collect(e)),
        Ok(m) => match cleaned {
            Err(e) => Err(RunError::Cleanup(e)),
            Ok(()) => Ok(m),
        },
    }
}

/// Assemble the output record: times convert from nanoseconds to
/// milliseconds by integer division, memory from bytes to kibibytes.
pub fn make_output(code: i32, signal: i32, real_time_ms: u64, m: &Metrics) -> (r: SandboxOutput)
    ensures
        r.code == code,
        r.signal == signal,
        r.real_time == real_time_ms,
        r.sys_time == m.sys_time / 1_000_000,
        r.user_time == m.user_time / 1_000_000,
        r.memory == m.memory / 1024,
{
    SandboxOutput {
        code,
        signal,
        real_time: real_time_ms,
        sys_time: m.sys_time / 1_000_000,
        user_time: m.user_time / 1_000_000,
        memory: m.memory / 1024,
    }
}

/// The supervision sequence after the clone: read the error pipe to end
/// of file — always before reaping, so a preparation failure is observed
/// first — then reap the child, cancel the wall-clock killer, take the
/// elapsed time, collect the metrics, and tear the cgroup down on every
/// path.
///
/// The two closures stand for what only the caller has: `cancel_killer`
/// aborts the delayed SIGKILL, and is called as soon as the wait returns;
/// `elapsed_ms` reads the caller's clock, as milliseconds since the
/// moment just before the clone.
pub fn run_parent<FCancel: FnOnce() -> (), FElapsed: FnOnce() -> u64>(
    child_pid: i32,
    pipe_rx: PipeRx,
    cgroup: Cgroup,
    cancel_killer: FCancel,
    elapsed_ms: FElapsed,
) -> (r: Result<SandboxOutput, RunError>)
    requires
        call_requires(cancel_killer, ()),
        call_requires(elapsed_ms, ()),
    ensures
        r matches Ok(out) ==> out.signal == 0 || out.code == 0,
        r matches Ok(out) ==> call_ensures(elapsed_ms, (), out.real_time),
        r matches Err(RunError::ChildSetup(p)) ==> p@.len() > 0,
{
    let child_result = match pipe_rx.read_result() {
        Ok(inner) => inner,
        Err(e) => {
            let _ = proc::wait_child(child_pid);
            cancel_killer();
            let _ = cgroup_v1::cg_cleanup(cgroup);
            return Err(RunError::PipeRead(e));
        },
    };
    if let Err(payload) = child_result {
        let _ = proc::wait_child(child_pid);
        cancel_killer();
        let _ = cgroup_v1::cg_cleanup(cgroup);
        return Err(RunError::ChildSetup(payload));
    }
    let waited = proc::wait_child(child_pid);
    cancel_killer();
    let real_time_ms = elapsed_ms();
    let (code, signal) = match waited {
        Ok(pair) => pair,
        Err(e) => {
            let _ = cgroup_v1::cg_cleanup(cgroup);
            return Err(RunError::Wait(e));
        },
    };
    let collected = match cgroup_v1::cg_collect(&cgroup) {
        Ok(p) => Ok(p.0),
        Err(e) => Err(e),
    };
    let cleaned = cgroup_v1::cg_cleanup(cgroup);
    let m = combine_teardown(collected, cleaned)?;
    Ok(make_output(code, signal, real_time_ms, &m))
}

} // verus!
