//! The built-in composable rule set for compiled C/C++ targets: kill by
//! default, allow the small set of syscalls such programs need, and gate
//! `open`/`openat` on a read-only access mode.

use vstd::prelude::*;
use crate::seccomp::Action;
use crate::seccomp::CmpOp;
use crate::seccomp::Comparator;
use crate::seccomp::SeccompRule;
use crate::seccomp::TargetRule;
use crate::seccomp;

verus! {

/// Mask over open(2)'s low access-mode bits used by the gated openers.
pub const OPEN_MODE_MASK: u64 = 0x11;

/// The operand the mask is compared against: `O_RDONLY`, which is zero.
pub const OPEN_MODE_RDONLY: u64 = 0;

/// The sixteen syscalls the preset allows outright, in order.
pub open spec fn c_cpp_allowed() -> Seq<i64> {
    seq![
        seccomp::SYS_MPROTECT,
        seccomp::SYS_MMAP,
        seccomp::SYS_ACCESS,
        seccomp::SYS_READ,
        seccomp::SYS_CLOSE,
        seccomp::SYS_STAT,
        seccomp::SYS_FSTAT,
        seccomp::SYS_MUNMAP,
        seccomp::SYS_BRK,
        seccomp::SYS_ARCH_PRCTL,
        seccomp::SYS_WRITE,
        seccomp::SYS_LSEEK,
        seccomp::SYS_UNAME,
        seccomp::SYS_READLINK,
        seccomp::SYS_EXIT_GROUP,
        seccomp::SYS_SYSINFO,
    ]
}

/// The shape of the preset: default Kill; sixteen flat allows for
/// `c_cpp_allowed()`; then `open` gated on argument 1 and `openat` gated
/// on argument 2, each masked-equal to the read-only access mode.
pub open spec fn is_c_cpp(r: TargetRule) -> bool {
    &&& r.default_action is Kill
    &&& r.seccomp_rules@.len() == 18
    &&& forall|i: int|
        0 <= i < 16 ==> {
            let rule = #[trigger] r.seccomp_rules@[i];
            rule.action is Allow && rule.syscall == c_cpp_allowed()[i] && rule.comparators@.len()
                == 0
        }
    &&& r.seccomp_rules@[16].action is Allow
    &&& r.seccomp_rules@[16].syscall == seccomp::SYS_OPEN
    &&& r.seccomp_rules@[16].comparators@ =~= seq![
        Comparator { arg: 1, op: CmpOp::MaskedEq(OPEN_MODE_MASK, OPEN_MODE_RDONLY) },
    ]
    &&& r.seccomp_rules@[17].action is Allow
    &&& r.seccomp_rules@[17].syscall == seccomp::SYS_OPENAT
    &&& r.seccomp_rules@[17].comparators@ =~= seq![
        Comparator { arg: 2, op: CmpOp::MaskedEq(OPEN_MODE_MASK, OPEN_MODE_RDONLY) },
    ]
}

/// Build the C/C++ preset.
pub fn c_cpp_rules() -> (r: TargetRule)
    ensures
        is_c_cpp(r),
{
    let mut rule = TargetRule::from_default_action(Action::Kill);
    rule.add_action(Action::Allow, seccomp::SYS_MPROTECT);
    rule.add_action(Action::Allow, seccomp::SYS_MMAP);
    rule.add_action(Action::Allow, seccomp::SYS_ACCESS);
    rule.add_action(Action::Allow, seccomp::SYS_READ);
    rule.add_action(Action::Allow, seccomp::SYS_CLOSE);
    rule.add_action(Action::Allow, seccomp::SYS_STAT);
    rule.add_action(Action::Allow, seccomp::SYS_FSTAT);
    rule.add_action(Action::Allow, seccomp::SYS_MUNMAP);
    rule.add_action(Action::Allow, seccomp::SYS_BRK);
    rule.add_action(Action::Allow, seccomp::SYS_ARCH_PRCTL);
    rule.add_action(Action::Allow, seccomp::SYS_WRITE);
    rule.add_action(Action::Allow, seccomp::SYS_LSEEK);
    rule.add_action(Action::Allow, seccomp::SYS_UNAME);
    rule.add_action(Action::Allow, seccomp::SYS_READLINK);
    rule.add_action(Action::Allow, seccomp::SYS_EXIT_GROUP);
    rule.add_action(Action::Allow, seccomp::SYS_SYSINFO);
    let mut open_comps: Vec<Comparator> = Vec::new();
    open_comps.push(Comparator { arg: 1, op: CmpOp::MaskedEq(OPEN_MODE_MASK, OPEN_MODE_RDONLY) });
    rule.add_rule(
        SeccompRule { action: Action::Allow, syscall: seccomp::SYS_OPEN, comparators: open_comps },
    );
    let mut openat_comps: Vec<Comparator> = Vec::new();
    openat_comps.push(
        Comparator { arg: 2, op: CmpOp::MaskedEq(OPEN_MODE_MASK, OPEN_MODE_RDONLY) },
    );
    rule.add_rule(
        SeccompRule {
            action: Action::Allow,
            syscall: seccomp::SYS_OPENAT,
            comparators: openat_comps,
        },
    );
    rule
}

} // verus!
