//! The seccomp rule engine as data: a default action, per-syscall rules
//! with optional argument comparators, and the expansion into the flat
//! filter entries a loader installs one by one. Building and expanding are
//! verified here; pushing the entries into the kernel takes libseccomp and
//! stays outside the library.

use vstd::prelude::*;

verus! {

// Syscall numbers of the x86_64 Linux ABI used by the built-in rule sets.
pub const SYS_READ: i64 = 0;

pub const SYS_WRITE: i64 = 1;

pub const SYS_OPEN: i64 = 2;

pub const SYS_CLOSE: i64 = 3;

pub const SYS_STAT: i64 = 4;

pub const SYS_FSTAT: i64 = 5;

pub const SYS_LSEEK: i64 = 8;

pub const SYS_MMAP: i64 = 9;

pub const SYS_MPROTECT: i64 = 10;

pub const SYS_MUNMAP: i64 = 11;

pub const SYS_BRK: i64 = 12;

pub const SYS_ACCESS: i64 = 21;

pub const SYS_SHMGET: i64 = 29;

pub const SYS_CLONE: i64 = 56;

pub const SYS_EXECVE: i64 = 59;

pub const SYS_UNAME: i64 = 63;

pub const SYS_SEMGET: i64 = 64;

pub const SYS_MSGGET: i64 = 68;

pub const SYS_READLINK: i64 = 89;

pub const SYS_SYSINFO: i64 = 99;

pub const SYS_ARCH_PRCTL: i64 = 158;

pub const SYS_EXIT_GROUP: i64 = 231;

pub const SYS_OPENAT: i64 = 257;

pub const SYS_MQ_OPEN: i64 = 240;

/// What the filter does when a rule matches, or by default.
#[derive(Debug, Clone, Copy, PartialEq, Eq)]
pub enum Action {
    /// Let the syscall through.
    Allow,
    /// Kill the calling thread with SIGSYS.
    Kill,
    /// Kill the whole process with SIGSYS.
    KillProcess,
}

/// One comparison on one syscall argument.
#[derive(Debug, Clone, Copy, PartialEq, Eq)]
pub enum CmpOp {
    /// The argument equals the operand.
    Eq(u64),
    /// The argument differs from the operand.
    Ne(u64),
    /// The argument masked with the first operand equals the second.
    MaskedEq(u64, u64),
}

/// A comparison bound to one argument slot, 0 through 5.
#[derive(Debug, Clone, Copy, PartialEq, Eq)]
pub struct Comparator {
    pub arg: u32,
    pub op: CmpOp,
}

/// One rule: an action, a syscall, and any number of comparators. A rule
/// without comparators overrides the action for the syscall outright; one
/// with N comparators becomes N separate filter entries, because the
/// loader installs one comparator group per call.
#[derive(Debug, Clone, PartialEq, Eq)]
pub struct SeccompRule {
    pub action: Action,
    pub syscall: i64,
    pub comparators: Vec<Comparator>,
}

impl SeccompRule {
    /// A flat per-syscall action override.
    pub fn without_comparators(action: Action, syscall: i64) -> (r: Self)
        ensures
            r.action == action,
            r.syscall == syscall,
            r.comparators@ =~= Seq::<Comparator>::empty(),
    {
        Self { action, syscall, comparators: Vec::new() }
    }
}

/// A whole filter program: default action plus rules, in order.
#[derive(Debug, Clone, PartialEq, Eq)]
pub struct TargetRule {
    pub default_action: Action,
    pub seccomp_rules: Vec<SeccompRule>,
}

impl TargetRule {
    /// An empty program that allows everything.
    pub fn new() -> (r: Self)
        ensures
            r.default_action is Allow,
            r.seccomp_rules@ =~= Seq::<SeccompRule>::empty(),
    {
        Self { default_action: Action::Allow, seccomp_rules: Vec::new() }
    }

    /// An empty program with the given default.
    pub fn from_default_action(action: Action) -> (r: Self)
        ensures
            r.default_action == action,
            r.seccomp_rules@ =~= Seq::<SeccompRule>::empty(),
    {
        Self { default_action: action, seccomp_rules: Vec::new() }
    }

    /// Append a flat action override for one syscall.
    pub fn add_action(&mut self, action: Action, syscall: i64)
        ensures
            final(self).default_action == old(self).default_action,
            final(self).seccomp_rules@.len() == old(self).seccomp_rules@.len() + 1,
            final(self).seccomp_rules@.last().action == action,
            final(self).seccomp_rules@.last().syscall == syscall,
            final(self).seccomp_rules@.last().comparators@.len() == 0,
            forall|k: int|
                0 <= k < old(self).seccomp_rules@.len()
                    ==> #[trigger] final(self).seccomp_rules@[k] == old(self).seccomp_rules@[k],
    {
        self.seccomp_rules.push(SeccompRule::without_comparators(action, syscall));
    }

    /// Append one rule.
    pub fn add_rule(&mut self, rule: SeccompRule)
        ensures
            final(self).default_action == old(self).default_action,
            final(self).seccomp_rules@ =~= old(self).seccomp_rules@.push(rule),
    {
        self.seccomp_rules.push(rule);
    }
}

/// One flat entry for the loader: an action, a syscall, at most one
/// comparator.
#[derive(Debug, Clone, Copy, PartialEq, Eq)]
pub struct FilterEntry {
    pub action: Action,
    pub syscall: i64,
    pub comparator: Option<Comparator>,
}

/// The flat entries of one rule: itself when it has no comparators, else
/// one entry per comparator.
pub open spec fn entries_of_rule(r: SeccompRule) -> Seq<FilterEntry> {
    if r.comparators@.len() == 0 {
        seq![FilterEntry { action: r.action, syscall: r.syscall, comparator: None }]
    } else {
        Seq::new(
            r.comparators@.len(),
            |i: int|
                FilterEntry {
                    action: r.action,
                    syscall: r.syscall,
                    comparator: Some(r.comparators@[i]),
                },
        )
    }
}

/// The flat entries of a rule list, in rule order.
pub open spec fn entries_of_rules(rules: Seq<SeccompRule>) -> Seq<FilterEntry>
    decreases rules.len(),
{
    if rules.len() == 0 {
        Seq::empty()
    } else {
        entries_of_rule(rules[0]) + entries_of_rules(rules.drop_first())
    }
}

/// Loading is skipped entirely for a program that would be a no-op: a
/// default of Allow with no rules at all.
pub open spec fn skip_load(default_action: Action, rules: Seq<SeccompRule>) -> bool {
    default_action is Allow && rules.len() == 0
}

/// Expand one rule into its flat entries.
fn expand_rule(rule: &SeccompRule, out: &mut Vec<FilterEntry>)
    ensures
        final(out)@ == old(out)@ + entries_of_rule(*rule),
{
    let n = rule.comparators.len();
    if n == 0 {
        out.push(FilterEntry { action: rule.action, syscall: rule.syscall, comparator: None });
        proof {
            assert(out@ =~= old(out)@ + entries_of_rule(*rule));
        }
        return ;
    }
    let mut i: usize = 0;
    proof {
        assert(out@ =~= old(out)@ + Seq::new(
            0nat,
            |k: int|
                FilterEntry {
                    action: rule.action,
                    syscall: rule.syscall,
                    comparator: Some(rule.comparators@[k]),
                },
        ));
    }
    while i < n
        invariant
            n == rule.comparators@.len(),
            n > 0,
            i <= n,
            out@ == old(out)@ + Seq::new(
                i as nat,
                |k: int|
                    FilterEntry {
                        action: rule.action,
                        syscall: rule.syscall,
                        comparator: Some(rule.comparators@[k]),
                    },
            ),
        decreases n - i,
    {
        out.push(
            FilterEntry {
                action: rule.action,
                syscall: rule.syscall,
                comparator: Some(rule.comparators[i]),
            },
        );
        i += 1;
        proof {
            assert(out@ =~= old(out)@ + Seq::new(
                i as nat,
                |k: int|
                    FilterEntry {
                        action: rule.action,
                        syscall: rule.syscall,
                        comparator: Some(rule.comparators@[k]),
                    },
            ));
        }
    }
    proof {
        assert(out@ =~= old(out)@ + entries_of_rule(*rule));
    }
}

/// Expand a whole program, rules first and extra rules after them, into
/// the flat entries a loader installs in order. `None` means loading is
/// skipped because the program would be a no-op.
pub fn filter_entries(rule: &TargetRule, extra: &Vec<SeccompRule>) -> (r: Option<
    (Action, Vec<FilterEntry>),
>)
    ensures
        r is None <==> skip_load(rule.default_action, rule.seccomp_rules@ + extra@),
        r matches Some(p) ==> p.0 == rule.default_action && p.1@ == entries_of_rules(
            rule.seccomp_rules@ + extra@,
        ),
{
    let all_empty = rule.seccomp_rules.len() == 0 && extra.len() == 0;
    if all_empty && matches!(rule.default_action, Action::Allow) {
        proof {
            assert((rule.seccomp_rules@ + extra@).len() == 0);
        }
        return None;
    }
    let mut out: Vec<FilterEntry> = Vec::new();
    let ghost all = rule.seccomp_rules@ + extra@;
    proof {
        assert(all.len() > 0 || !(rule.default_action is Allow));
        assert(all.subrange(0, all.len() as int) =~= all);
        assert(out@ + entries_of_rules(all) =~= entries_of_rules(all));
    }
    let n1 = rule.seccomp_rules.len();
    let mut i: usize = 0;
    while i < n1
        invariant
            n1 == rule.seccomp_rules@.len(),
            i <= n1,
            all == rule.seccomp_rules@ + extra@,
            entries_of_rules(all) == out@ + entries_of_rules(all.subrange(i as int, all.len() as int)),
        decreases n1 - i,
    {
        proof {
            assert(all.subrange(i as int, all.len() as int).drop_first() =~= all.subrange(
                i + 1,
                all.len() as int,
            ));
            assert(all.subrange(i as int, all.len() as int)[0] == all[i as int]);
            assert(all[i as int] == rule.seccomp_rules@[i as int]);
        }
        expand_rule(&rule.seccomp_rules[i], &mut out);
        i += 1;
        proof {
            assert(entries_of_rules(all) =~= out@ + entries_of_rules(
                all.subrange(i as int, all.len() as int),
            ));
        }
    }
    let n2 = extra.len();
    let mut j: usize = 0;
    while j < n2
        invariant
            n1 == rule.seccomp_rules@.len(),
            n2 == extra@.len(),
            j <= n2,
            all == rule.seccomp_rules@ + extra@,
            entries_of_rules(all) == out@ + entries_of_rules(
                all.subrange(n1 + j, all.len() as int),
            ),
        decreases n2 - j,
    {
        proof {
            assert(all.subrange(n1 + j, all.len() as int).drop_first() =~= all.subrange(
                n1 + j + 1,
                all.len() as int,
            ));
            assert(all.subrange(n1 + j, all.len() as int)[0] == all[n1 + j]);
            assert(all[n1 + j] == extra@[j as int]);
        }
        expand_rule(&extra[j], &mut out);
        j += 1;
        proof {
            assert(entries_of_rules(all) =~= out@ + entries_of_rules(
                all.subrange(n1 + j, all.len() as int),
            ));
        }
    }
    proof {
        assert(all.subrange(all.len() as int, all.len() as int) =~= Seq::<SeccompRule>::empty());
        assert(out@ =~= out@ + entries_of_rules(Seq::empty()));
    }
    Some((rule.default_action, out))
}

/// The four syscalls that create System V or POSIX IPC objects, all killed
/// by the IPC-forbidding filter.
pub open spec fn ipc_syscalls() -> Seq<i64> {
    seq![SYS_MSGGET as i64, SYS_SEMGET as i64, SYS_SHMGET as i64, SYS_MQ_OPEN as i64]
}

/// The seccomp program builder used in place of an IPC namespace: it kills
/// the process on any attempt to create an IPC object.
pub struct Context {
    /// The program built so far.
    pub rule: TargetRule,
}

impl Context {
    /// A fresh context that allows everything.
    pub fn new() -> (r: Context)
        ensures
            r.rule.default_action is Allow,
            r.rule.seccomp_rules@ =~= Seq::<SeccompRule>::empty(),
    {
        Context { rule: TargetRule::new() }
    }

    /// Add kill-process rules for the IPC-object syscalls.
    pub fn forbid_ipc(&mut self)
        ensures
            final(self).rule.default_action == old(self).rule.default_action,
            final(self).rule.seccomp_rules@.len() == old(self).rule.seccomp_rules@.len() + 4,
            forall|k: int|
                0 <= k < 4 ==> {
                    let added = #[trigger] final(self).rule.seccomp_rules@[old(
                        self,
                    ).rule.seccomp_rules@.len() + k];
                    added.action is KillProcess && added.syscall == ipc_syscalls()[k]
                        && added.comparators@.len() == 0
                },
            forall|k: int|
                0 <= k < old(self).rule.seccomp_rules@.len()
                    ==> #[trigger] final(self).rule.seccomp_rules@[k] == old(
                    self,
                ).rule.seccomp_rules@[k],
    {
        self.rule.add_action(Action::KillProcess, SYS_MSGGET);
        self.rule.add_action(Action::KillProcess, SYS_SEMGET);
        self.rule.add_action(Action::KillProcess, SYS_SHMGET);
        self.rule.add_action(Action::KillProcess, SYS_MQ_OPEN);
    }

    /// The flat entries to install, or `None` when the context is a no-op.
    pub fn entries(&self) -> (r: Option<(Action, Vec<FilterEntry>)>)
        ensures
            r is None <==> skip_load(self.rule.default_action, self.rule.seccomp_rules@),
            r matches Some(p) ==> p.0 == self.rule.default_action && p.1@ == entries_of_rules(
                self.rule.seccomp_rules@,
            ),
    {
        let empty: Vec<SeccompRule> = Vec::new();
        let r = filter_entries(&self.rule, &empty);
        proof {
            assert(self.rule.seccomp_rules@ + empty@ =~= self.rule.seccomp_rules@);
        }
        r
    }
}

} // verus!
