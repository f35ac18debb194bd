//! The one helper every raw call goes through in the drivers around this
//! library: turn a negative return into the current errno.

use vstd::prelude::*;
use crate::sys;

verus! {

/// Run the raw call `f` and translate its result: a negative return
/// becomes the current errno, anything else the value itself.
pub fn libc_call<F: FnOnce() -> i32>(f: F) -> (r: Result<u32, i32>)
    requires
        call_requires(f, ()),
    ensures
        r matches Ok(v) ==> exists|ret: i32|
            call_ensures(f, (), ret) && ret >= 0 && v == ret as u32,
        r is Err ==> exists|ret: i32| call_ensures(f, (), ret) && ret < 0,
{
    let ret = f();
    if ret < 0 {
        Err(sys::sys_last_errno())
    } else {
        Ok(ret as u32)
    }
}

} // verus!
