//! Mount primitives the child runs after entering its fresh mount
//! namespace: making the root private, bind mounts with the two-step
//! read-only remount, and fresh `proc` / `tmpfs` mounts.

use vstd::prelude::*;
use crate::fdio;
use crate::sys;
use path_absolutize::Absolutize;

verus! {

/// Errno used when a path cannot be normalized.
pub const EINVAL: i32 = 22;

/// The lexical normal form of an absolute path: `.` and `..` segments
/// resolved, never ascending above the root.
pub uninterp spec fn normalized_of(s: Seq<char>) -> Seq<char>;

/// Relies on path_absolutize's `absolutize_virtually` under the root `/`:
/// for an absolute path it resolves `.` and `..` lexically — the working
/// directory plays no part — and returns an absolute path.
#[verifier::external_body]
fn normalize_abs(s: &str) -> (r: Result<String, i32>)
    requires
        crate::config::is_abs(s@),
    ensures
        r matches Ok(p) ==> p@ == normalized_of(s@) && crate::config::is_abs(p@),
{
    match std::path::Path::new(s).absolutize_virtually("/") {
        Ok(p) => match p.to_str() {
            Some(q) => Ok(q.to_owned()),
            None => Err(EINVAL),
        },
        Err(e) => Err(e.raw_os_error().unwrap_or(EINVAL)),
    }
}

/// Where a mount destination really goes: under the normalized chroot when
/// one is configured, else at its own normalized place.
pub open spec fn resolved_dst(chroot: Option<Seq<char>>, dst: Seq<char>) -> Seq<char> {
    match chroot {
        Some(c) => normalized_of(c) + normalized_of(dst),
        None => normalized_of(dst),
    }
}

/// Resolve one destination path against the configured chroot.
pub fn resolve_dst(chroot: &Option<String>, dst: &str) -> (r: Result<String, i32>)
    requires
        crate::config::is_abs(dst@),
        chroot matches Some(c) ==> crate::config::is_abs(c@),
    ensures
        r matches Ok(p) ==> p@ == resolved_dst(
            match chroot {
                Some(c) => Some(c@),
                None => None,
            },
            dst@,
        ),
{
    let base = normalize_abs(dst)?;
    match chroot {
        Some(c) => {
            let mut root = normalize_abs(c.as_str())?;
            root.append(base.as_str());
            Ok(root)
        },
        None => Ok(base),
    }
}

/// Stop mount events from propagating out of the new namespace:
/// remount `/` private, recursively.
pub fn make_root_private() -> (r: Result<(), i32>) {
    sys::sys_mount(None, "/", None, sys::MS_PRIVATE | sys::MS_REC)
}

/// Mount a fresh `proc` at `dst`.
pub fn mount_proc(dst: &str) -> (r: Result<(), i32>) {
    sys::sys_mount(Some("none"), dst, Some("proc"), 0)
}

/// Mount a fresh `tmpfs` at `dst`.
pub fn mount_tmpfs(dst: &str) -> (r: Result<(), i32>) {
    sys::sys_mount(Some("none"), dst, Some("tmpfs"), 0)
}

/// Whether `path` names a directory.
pub fn is_dir(path: &str) -> (r: Result<bool, i32>) {
    let mode = sys::sys_stat_mode(path)?;
    Ok(mode & sys::S_IFMT == sys::S_IFDIR)
}

/// Errno mkdir reports for an already existing directory, which this
/// library treats as success.
pub const EEXIST: i32 = 17;

/// Create the directory and its ancestors; an existing directory is
/// success.
fn create_dir_all(path: &str) -> (r: Result<(), i32>) {
    let n = path.unicode_len();
    let mut i: usize = 1;
    while i < n
        invariant
            n == path@.len(),
            1 <= i,
        decreases n - i,
    {
        if path.get_char(i) == '/' {
            let prefix = path.substring_char(0, i);
            let _ = sys::sys_mkdir(prefix, sys::MODE_RWX_R_R);
        }
        i += 1;
    }
    match sys::sys_mkdir(path, sys::MODE_RWX_R_R) {
        Ok(()) => Ok(()),
        Err(e) => {
            if e == EEXIST {
                Ok(())
            } else {
                Err(e)
            }
        },
    }
}

/// Create an empty regular file at `path` to serve as a bind target,
/// making parent directories first.
fn create_bind_target_file(path: &str) -> (r: Result<(), i32>) {
    let n = path.unicode_len();
    let mut last_slash: usize = 0;
    let mut i: usize = 0;
    while i < n
        invariant
            n == path@.len(),
            i <= n,
            last_slash <= i,
        decreases n - i,
    {
        if path.get_char(i) == '/' {
            last_slash = i;
        }
        i += 1;
    }
    if last_slash > 0 {
        let parent = path.substring_char(0, last_slash);
        create_dir_all(parent)?;
    }
    let fd = sys::sys_open(path, sys::O_CREAT | sys::O_RDONLY | sys::O_CLOEXEC, sys::MODE_RW_R_R)?;
    fdio::close_quiet(fd);
    Ok(())
}

/// The flag word of the first mount call of a bind: always `MS_BIND`,
/// with `MS_REC` exactly when the bind is recursive — and never
/// `MS_RDONLY`, which the first call would ignore anyway.
pub fn bind_flags(recursive: bool) -> (f: u64)
    ensures
        f == if recursive {
            sys::MS_BIND | sys::MS_REC
        } else {
            sys::MS_BIND
        },
{
    if recursive {
        sys::MS_BIND | sys::MS_REC
    } else {
        sys::MS_BIND
    }
}

/// The flag word of the second mount call of a read-only bind: remount
/// the fresh bind with the read-only bit.
pub const BIND_REMOUNT_RO_FLAGS: u64 = sys::MS_REMOUNT | sys::MS_BIND | sys::MS_RDONLY;

/// The read-only remount word carries `MS_RDONLY` together with the
/// remount and bind bits, and nothing else.
pub proof fn lemma_ro_remount_flags()
    ensures
        BIND_REMOUNT_RO_FLAGS == sys::MS_RDONLY + sys::MS_REMOUNT + sys::MS_BIND,
{
    assert((0x20u64 | 0x1000u64 | 0x1u64) == 0x1021u64) by (bit_vector);
}

/// Bind mount `src` at `dst`, returning the flag words of the mount calls
/// made as the witness: the first call's word, and the second call's when
/// there was one. The destination is created when absent: a directory for
/// a directory source, an empty file otherwise. The contract pins the
/// calls: the first uses exactly `bind_flags(recursive)`; a second call
/// happens if and only if the bind is read-only — because the first call
/// ignores `MS_RDONLY` — and then uses exactly `BIND_REMOUNT_RO_FLAGS`.
pub fn bind_mount(src: &str, dst: &str, recursive: bool, readonly: bool) -> (r: Result<
    (u64, Option<u64>),
    i32,
>)
    ensures
        r matches Ok(calls) ==> {
            &&& calls.0 == (if recursive {
                sys::MS_BIND | sys::MS_REC
            } else {
                sys::MS_BIND
            })
            &&& (calls.1 is Some <==> readonly)
            &&& (calls.1 matches Some(f2) ==> f2 == BIND_REMOUNT_RO_FLAGS)
        },
{
    let src_is_dir = is_dir(src)?;
    let dst_exists = sys::sys_path_exists(dst);
    if !dst_exists {
        if src_is_dir {
            create_dir_all(dst)?;
        } else {
            create_bind_target_file(dst)?;
        }
    }
    let first = bind_flags(recursive);
    sys::sys_mount(Some(src), dst, None, first)?;
    if readonly {
        sys::sys_mount(None, dst, None, BIND_REMOUNT_RO_FLAGS)?;
        Ok((first, Some(BIND_REMOUNT_RO_FLAGS)))
    } else {
        Ok((first, None))
    }
}

} // verus!
