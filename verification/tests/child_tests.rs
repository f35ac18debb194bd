use carapace::ChildError;
use carapace::ChildStep;
use carapace::Command;
use carapace::OpenMode;
use carapace::RedirectSource;
use carapace::build_envp;
use carapace::cgroup_name;
use carapace::fresh_cgroup_name;
use carapace::prepare_execve_args;
use carapace::resolve_dst;
use carapace::stdio_plan;
use carapace::to_cli_args;

#[test]
fn t_build_envp_literal_inherit_drop() {
    let entries = vec![
        String::from("A=1"),
        String::from("B"),
        String::from("MISSING"),
    ];
    let parent = vec![
        (String::from("B"), String::from("2")),
        (String::from("MISSINGX"), String::from("3")),
    ];
    let envp = build_envp(&entries, &parent);
    assert_eq!(envp, vec![String::from("A=1"), String::from("B=2")]);
}

#[test]
fn t_build_envp_first_match_wins() {
    let entries = vec![String::from("K")];
    let parent = vec![
        (String::from("K"), String::from("first")),
        (String::from("K"), String::from("second")),
    ];
    assert_eq!(build_envp(&entries, &parent), vec![String::from("K=first")]);
}

#[test]
fn t_prepare_execve_args_layout() {
    let mut c = Command::new(String::from("/bin/echo"));
    c.arg(String::from("hi"));
    c.arg(String::from("there"));
    c.inherit_env(String::from("PATH"));
    let parent = vec![(String::from("PATH"), String::from("/usr/bin"))];
    let ea = prepare_execve_args(&c.config, &parent).unwrap();
    assert_eq!(
        ea.argv,
        vec![String::from("/bin/echo"), String::from("hi"), String::from("there")]
    );
    assert_eq!(ea.envp, vec![String::from("PATH=/usr/bin")]);
}

#[test]
fn t_prepare_execve_args_rejects_nul() {
    let mut c = Command::new(String::from("/bin/echo"));
    c.arg(String::from("bad\0arg"));
    let parent = Vec::new();
    let r = prepare_execve_args(&c.config, &parent);
    assert!(r.is_err());
    assert_eq!(r.unwrap_err().step, ChildStep::ExecArgsStep);
}

#[test]
fn t_stdio_plan_truncates_stdout() {
    let mut c = Command::new(String::from("/bin/true"));
    c.config.stdout = Some(String::from("/tmp/out"));
    c.config.stdin_fd = Some(7);
    let plan = stdio_plan(&c.config);
    assert_eq!(plan.len(), 2);
    assert_eq!(plan[0].target_fd, 0);
    assert_eq!(plan[0].source, RedirectSource::FromFd(7));
    assert_eq!(plan[1].target_fd, 1);
    assert_eq!(
        plan[1].source,
        RedirectSource::FromPath(String::from("/tmp/out"), OpenMode::WriteTruncate)
    );
}

#[test]
fn t_stdio_plan_stdin_read_only() {
    let mut c = Command::new(String::from("/bin/true"));
    c.config.stdin = Some(String::from("/tmp/in"));
    let plan = stdio_plan(&c.config);
    assert_eq!(plan.len(), 1);
    assert_eq!(plan[0].target_fd, 0);
    assert_eq!(
        plan[0].source,
        RedirectSource::FromPath(String::from("/tmp/in"), OpenMode::ReadOnly)
    );
}

#[test]
fn t_open_flags_modes() {
    // Read-only: O_RDONLY | O_CLOEXEC, no creation mode.
    assert_eq!(carapace::open_flags(OpenMode::ReadOnly), (0x80000, 0));
    // Output: O_WRONLY | O_CREAT | O_TRUNC | O_CLOEXEC — truncate, never
    // append — with mode 0644.
    assert_eq!(
        carapace::open_flags(OpenMode::WriteTruncate),
        (0x1 | 0x40 | 0x200 | 0x80000, 0o644)
    );
}

#[test]
fn t_mount_plan_order_and_resolution() {
    let mut c = Command::new(String::from("/bin/true"));
    c.chroot(String::from("/jail"));
    c.config.bindmount_rw.push(carapace::BindMount {
        src: String::from("/rw"),
        dst: String::from("/a/../b"),
    });
    c.bindmount_ro(String::from("/ro"), String::from("/c"));
    c.mount_proc(String::from("/proc"));
    c.config.mount_tmpfs = Some(String::from("/tmp"));
    let ops = carapace::mount_plan(&c.config).unwrap();
    assert_eq!(ops.len(), 5);
    assert_eq!(ops[0], carapace::MountOp::RootPrivate);
    // The read-write bind comes before the read-only one, each at its
    // chroot-resolved, dot-normalized destination.
    assert_eq!(
        ops[1],
        carapace::MountOp::Bind {
            src: String::from("/rw"),
            dst: String::from("/jail/b"),
            readonly: false,
        }
    );
    assert_eq!(
        ops[2],
        carapace::MountOp::Bind {
            src: String::from("/ro"),
            dst: String::from("/jail/c"),
            readonly: true,
        }
    );
    assert_eq!(ops[3], carapace::MountOp::Proc { dst: String::from("/jail/proc") });
    assert_eq!(ops[4], carapace::MountOp::Tmpfs { dst: String::from("/jail/tmp") });
}

#[test]
fn t_redirect_stdio_empty_plan_ok() {
    // With no stream configured the plan is empty, nothing is touched,
    // and the executed plan comes back empty.
    let c = Command::new(String::from("/bin/true"));
    let ops = carapace::redirect_stdio(&c.config).unwrap();
    assert!(ops.is_empty());
}

#[test]
fn t_set_hard_rlimit_unconfigured_ok() {
    // No rlimit configured: nothing installed, success guaranteed.
    let c = Command::new(String::from("/bin/true"));
    assert!(carapace::set_hard_rlimit(&c.config).is_ok());
}

#[test]
fn t_mount_plan_empty_config() {
    // No bind, proc or tmpfs mounts: the plan is just the private root.
    let c = Command::new(String::from("/bin/true"));
    let ops = carapace::mount_plan(&c.config).unwrap();
    assert_eq!(ops, vec![carapace::MountOp::RootPrivate]);
}

#[test]
fn t_to_cli_args_seccomp_flag() {
    let mut c = Command::new(String::from("/bin/a"));
    c.config.seccomp_forbid_ipc = true;
    let args = to_cli_args(&c.config);
    assert_eq!(
        args,
        vec![
            String::from("--seccomp-forbid-ipc"),
            String::from("--"),
            String::from("/bin/a"),
        ]
    );
}

#[test]
fn t_bind_flags() {
    // MS_BIND alone, or with MS_REC for a recursive bind.
    assert_eq!(carapace::bind_flags(false), 0x1000);
    assert_eq!(carapace::bind_flags(true), 0x1000 | 0x4000);
}

#[test]
fn t_child_error_message_names_step() {
    let e = ChildError { step: ChildStep::ChrootStep, errno: 2 };
    assert_eq!(e.message(), "failed to chroot: errno = 2");
    let e2 = ChildError { step: ChildStep::StdioStep, errno: 13 };
    assert_eq!(e2.message(), "failed to redirect stdio: errno = 13");
}

#[test]
fn t_cgroup_name_rendering() {
    assert_eq!(cgroup_name(7), "carapace_7");
    assert_eq!(cgroup_name(4294967295), "carapace_4294967295");
    let fresh = fresh_cgroup_name();
    assert!(fresh.starts_with("carapace_"));
}

#[test]
fn t_resolve_dst_normalizes() {
    assert_eq!(resolve_dst(&None, "/a/./b/../c").unwrap(), "/a/c");
    assert_eq!(
        resolve_dst(&Some(String::from("/jail")), "/tmp").unwrap(),
        "/jail/tmp"
    );
    assert_eq!(
        resolve_dst(&Some(String::from("/jail/x/..")), "/t/../u").unwrap(),
        "/jail/u"
    );
}

#[test]
fn t_to_cli_args_golden() {
    let mut c = Command::new(String::from("/bin/a"));
    c.config.uid = Some(1000);
    c.config.priority = Some(-5);
    c.bindmount_ro(String::from("/p"), String::from("/p"));
    c.arg(String::from("x"));
    let args = to_cli_args(&c.config);
    assert_eq!(
        args,
        vec![
            String::from("--uid"),
            String::from("1000"),
            String::from("-b"),
            String::from("/p"),
            String::from("--priority"),
            String::from("-5"),
            String::from("--"),
            String::from("/bin/a"),
            String::from("x"),
        ]
    );
}

#[test]
fn t_to_cli_args_bindmount_pair() {
    let mut c = Command::new(String::from("/bin/a"));
    c.config.bindmount_rw.push(carapace::BindMount {
        src: String::from("/src"),
        dst: String::from("/dst"),
    });
    let args = to_cli_args(&c.config);
    assert_eq!(
        args,
        vec![
            String::from("--bindmount-rw"),
            String::from("/src:/dst"),
            String::from("--"),
            String::from("/bin/a"),
        ]
    );
}

#[test]
fn t_command_builder() {
    let mut c = Command::new(String::from("/bin/prog"));
    c.arg_if(false, String::from("skipped"));
    c.arg_if(true, String::from("kept"));
    c.add_env(String::from("NAME"), "value");
    c.stdio(String::from("/i"), String::from("/o"), String::from("/e"));
    c.chroot(String::from("/jail"));
    c.mount_proc(String::from("/proc"));
    assert_eq!(c.config.args, vec![String::from("kept")]);
    assert_eq!(c.config.env, vec![String::from("NAME=value")]);
    assert_eq!(c.config.stdin.as_deref(), Some("/i"));
    assert_eq!(c.config.stdout.as_deref(), Some("/o"));
    assert_eq!(c.config.stderr.as_deref(), Some("/e"));
    assert_eq!(c.config.chroot.as_deref(), Some("/jail"));
    assert_eq!(c.config.mount_proc.as_deref(), Some("/proc"));
}
