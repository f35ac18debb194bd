//! Signal delivery to the child and to whatever it managed to fork.

use vstd::prelude::*;
use crate::sys;

verus! {

/// Send one signal to one process; errors are reported, not acted on.
pub fn send_signal(pid: i32, sig: i32) -> (r: Result<(), i32>) {
    sys::sys_kill(pid, sig)
}

/// Stop every listed process, then kill every listed process. Two passes,
/// so that a group of processes cannot fork between its members' signals:
/// a stopped process cannot fork, and a stopped process still accepts the
/// kill.
pub fn killall(pids: &Vec<i32>) {
    let n = pids.len();
    let mut i: usize = 0;
    while i < n
        invariant
            n == pids@.len(),
        decreases n - i,
    {
        let _ = send_signal(pids[i], sys::SIGSTOP);
        i += 1;
    }
    let mut j: usize = 0;
    while j < n
        invariant
            n == pids@.len(),
        decreases n - j,
    {
        let _ = send_signal(pids[j], sys::SIGKILL);
        j += 1;
    }
}

} // verus!
