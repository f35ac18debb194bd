use carapace::Target;
use carapace::TargetLimit;
use carapace::target_envp;

#[test]
fn t_target_envp_inherit_everything() {
    // No own entries, inheritance allowed: the caller's environment is
    // simply inherited.
    let parent = vec![(String::from("A"), String::from("1"))];
    assert_eq!(target_envp(&Vec::new(), &parent, false), None);
}

#[test]
fn t_target_envp_own_entries_appended() {
    let own = vec![String::from("X=9")];
    let parent = vec![
        (String::from("A"), String::from("1")),
        (String::from("B"), String::from("2")),
    ];
    assert_eq!(
        target_envp(&own, &parent, false),
        Some(vec![
            String::from("A=1"),
            String::from("B=2"),
            String::from("X=9"),
        ])
    );
}

#[test]
fn t_target_envp_forbid_inherited() {
    let own = vec![String::from("X=9")];
    let parent = vec![(String::from("A"), String::from("1"))];
    assert_eq!(target_envp(&own, &parent, true), Some(vec![String::from("X=9")]));
    // Forbidden inheritance with nothing of one's own: an empty, but
    // present, environment.
    assert_eq!(target_envp(&Vec::new(), &parent, true), Some(Vec::new()));
}

#[test]
fn t_target_new_defaults() {
    let t = Target::new("/bin/true").unwrap();
    assert_eq!(t.bin_path, "/bin/true");
    assert!(t.args.is_empty());
    assert!(t.envs.is_empty());
    assert!(!t.forbid_inherited_env);
    assert!(t.uid.is_none());
    assert!(t.gid.is_none());
    assert!(t.input_path.is_none());
    assert!(t.output_path.is_none());
    assert!(t.error_path.is_none());
    assert!(t.allow_target_execve);
    assert!(t.limit.max_real_time.is_none());
    assert!(t.rule.seccomp_rules.is_empty());
}

#[test]
fn t_target_new_rejects_nul() {
    assert!(Target::new("bad\0path").is_err());
}

#[test]
fn t_target_stdout() {
    let mut t = Target::new("/bin/true").unwrap();
    t.stdout("/dev/null");
    assert_eq!(t.output_path.as_deref(), Some("/dev/null"));
}

#[test]
fn t_target_limit_new_empty() {
    let l = TargetLimit::new();
    assert!(l.max_cpu_time.is_none());
    assert!(l.max_memory.is_none());
    assert!(l.max_output_size.is_none());
    assert!(l.max_process_number.is_none());
    assert!(l.max_stack_size.is_none());
}

#[test]
fn t_target_limit_apply_none_is_ok() {
    // With nothing configured, applying limits changes nothing and
    // succeeds in any process.
    let l = TargetLimit::new();
    assert!(l.apply_rlimit().is_ok());
}
