use carapace::Action;
use carapace::CmpOp;
use carapace::Comparator;
use carapace::Context;
use carapace::SeccompRule;
use carapace::TargetRule;
use carapace::c_cpp_rules;
use carapace::execve_gate;
use carapace::filter_entries;

#[test]
fn t_filter_skip_noop_program() {
    let rule = TargetRule::new();
    let extra: Vec<SeccompRule> = Vec::new();
    assert!(filter_entries(&rule, &extra).is_none());
}

#[test]
fn t_filter_kill_default_loads_even_empty() {
    let rule = TargetRule::from_default_action(Action::Kill);
    let extra: Vec<SeccompRule> = Vec::new();
    let (action, entries) = filter_entries(&rule, &extra).unwrap();
    assert_eq!(action, Action::Kill);
    assert!(entries.is_empty());
}

#[test]
fn t_filter_expansion_per_comparator() {
    let mut rule = TargetRule::new();
    rule.add_action(Action::Kill, 59);
    rule.add_rule(SeccompRule {
        action: Action::Allow,
        syscall: 2,
        comparators: vec![
            Comparator { arg: 1, op: CmpOp::Eq(0) },
            Comparator { arg: 2, op: CmpOp::Ne(7) },
        ],
    });
    let extra = vec![SeccompRule {
        action: Action::Kill,
        syscall: 56,
        comparators: vec![],
    }];
    let (action, entries) = filter_entries(&rule, &extra).unwrap();
    assert_eq!(action, Action::Allow);
    assert_eq!(entries.len(), 4);
    assert_eq!(entries[0].syscall, 59);
    assert_eq!(entries[0].comparator, None);
    assert_eq!(entries[1].syscall, 2);
    assert_eq!(entries[1].comparator, Some(Comparator { arg: 1, op: CmpOp::Eq(0) }));
    assert_eq!(entries[2].syscall, 2);
    assert_eq!(entries[2].comparator, Some(Comparator { arg: 2, op: CmpOp::Ne(7) }));
    assert_eq!(entries[3].syscall, 56);
    assert_eq!(entries[3].action, Action::Kill);
}

#[test]
fn t_c_cpp_preset_shape() {
    let rule = c_cpp_rules();
    assert_eq!(rule.default_action, Action::Kill);
    assert_eq!(rule.seccomp_rules.len(), 18);
    // The flat allows: mprotect first, sysinfo last.
    assert_eq!(rule.seccomp_rules[0].syscall, 10);
    assert_eq!(rule.seccomp_rules[0].action, Action::Allow);
    assert!(rule.seccomp_rules[0].comparators.is_empty());
    assert_eq!(rule.seccomp_rules[15].syscall, 99);
    // The gated openers.
    assert_eq!(rule.seccomp_rules[16].syscall, 2);
    assert_eq!(
        rule.seccomp_rules[16].comparators,
        vec![Comparator { arg: 1, op: CmpOp::MaskedEq(0x11, 0) }]
    );
    assert_eq!(rule.seccomp_rules[17].syscall, 257);
    assert_eq!(
        rule.seccomp_rules[17].comparators,
        vec![Comparator { arg: 2, op: CmpOp::MaskedEq(0x11, 0) }]
    );
}

#[test]
fn t_forbid_ipc_rules() {
    let mut ctx = Context::new();
    ctx.forbid_ipc();
    assert_eq!(ctx.rule.seccomp_rules.len(), 4);
    let nrs: Vec<i64> = ctx.rule.seccomp_rules.iter().map(|r| r.syscall).collect();
    assert_eq!(nrs, vec![68, 64, 29, 240]);
    for r in &ctx.rule.seccomp_rules {
        assert_eq!(r.action, Action::KillProcess);
        assert!(r.comparators.is_empty());
    }
    let (action, entries) = ctx.entries().unwrap();
    assert_eq!(action, Action::Allow);
    assert_eq!(entries.len(), 4);
}

#[test]
fn t_context_without_rules_skips() {
    let ctx = Context::new();
    assert!(ctx.entries().is_none());
}

#[test]
fn t_execve_gate_cases() {
    // Allowing program, target may exec: no extra rule.
    assert_eq!(execve_gate(Action::Allow, true, 1000), None);
    // Allowing program, exec forbidden: kill any execve not on argv[0].
    let g = execve_gate(Action::Allow, false, 1000).unwrap();
    assert_eq!(g.action, Action::Kill);
    assert_eq!(g.syscall, 59);
    assert_eq!(g.comparators, vec![Comparator { arg: 0, op: CmpOp::Ne(1000) }]);
    // Killing program, exec allowed: execve allowed outright.
    let g2 = execve_gate(Action::Kill, true, 1000).unwrap();
    assert_eq!(g2.action, Action::Allow);
    assert_eq!(g2.syscall, 59);
    assert!(g2.comparators.is_empty());
    // Killing program, exec forbidden: only argv[0] itself may be exec'd.
    let g3 = execve_gate(Action::Kill, false, 1000).unwrap();
    assert_eq!(g3.action, Action::Allow);
    assert_eq!(g3.comparators, vec![Comparator { arg: 0, op: CmpOp::Eq(1000) }]);
}
