//! Reaping the child and decoding how it ended.

use vstd::prelude::*;
use crate::sys;
use crate::sys::WaitEvent;

verus! {

/// Errno used when a wait reports something a terminated child cannot.
pub const ECHILD: i32 = 10;

/// Decode a termination report into the `(code, signal)` pair of the
/// output record: a voluntary exit keeps its code and reports signal 0; a
/// killed child reports code 0 and its signal.
pub fn decode_wait_event(ev: &WaitEvent) -> (r: Option<(i32, i32)>)
    ensures
        ev matches WaitEvent::Exited(c) ==> r == Some((*c, 0i32)),
        ev matches WaitEvent::Signaled(s) ==> r == Some((0i32, *s)),
        ev is Other ==> r is None,
{
    match ev {
        WaitEvent::Exited(c) => Some((*c, 0)),
        WaitEvent::Signaled(s) => Some((0, *s)),
        WaitEvent::Other => None,
    }
}

/// Block until the child terminates and return `(code, signal)` as
/// `decode_wait_event` defines them: at least one of the two is always 0,
/// because a child either exits or is killed, never both.
pub fn wait_child(child_pid: i32) -> (r: Result<(i32, i32), i32>)
    ensures
        r matches Ok(p) ==> p.0 == 0 || p.1 == 0,
{
    let ev = sys::sys_waitpid(child_pid)?;
    match decode_wait_event(&ev) {
        Some(pair) => Ok(pair),
        None => Err(ECHILD),
    }
}

} // verus!
