use carapace::BindMount;
use carapace::Command;
use carapace::ConfigError;
use carapace::SandboxOutput;
use carapace::validate;

fn base() -> Command {
    Command::new(String::from("/bin/true"))
}

#[test]
fn t_validate_empty_ok() {
    let c = base();
    assert!(validate(&c.config).is_ok());
}

#[test]
fn t_validate_priority_range() {
    let mut c = base();
    c.config.priority = Some(-21);
    assert_eq!(validate(&c.config), Err(ConfigError::PriorityOutOfRange));
    c.config.priority = Some(20);
    assert_eq!(validate(&c.config), Err(ConfigError::PriorityOutOfRange));
    c.config.priority = Some(-20);
    assert!(validate(&c.config).is_ok());
    c.config.priority = Some(19);
    assert!(validate(&c.config).is_ok());
}

#[test]
fn t_validate_mount_path_not_absolute() {
    let mut c = base();
    c.config.bindmount_ro.push(BindMount {
        src: String::from("relative/path"),
        dst: String::from("/ok"),
    });
    assert_eq!(validate(&c.config), Err(ConfigError::MountPathNotAbsolute));
}

#[test]
fn t_validate_special_mount_not_absolute() {
    let mut c = base();
    c.config.mount_proc = Some(String::from("proc"));
    assert_eq!(validate(&c.config), Err(ConfigError::SpecialMountNotAbsolute));
    c.config.mount_proc = Some(String::from("/proc"));
    assert!(validate(&c.config).is_ok());
}

#[test]
fn t_validate_chroot_not_absolute() {
    let mut c = base();
    c.config.chroot = Some(String::from("jail"));
    assert_eq!(validate(&c.config), Err(ConfigError::ChrootNotAbsolute));
}

#[test]
fn t_validate_stdio_conflict() {
    let mut c = base();
    c.config.stdout = Some(String::from("/tmp/out"));
    c.config.stdout_fd = Some(5);
    assert_eq!(validate(&c.config), Err(ConfigError::StdioConflict));
    c.config.stdout_fd = None;
    assert!(validate(&c.config).is_ok());
}

#[test]
fn t_validate_priority_checked_first() {
    let mut c = base();
    c.config.priority = Some(100);
    c.config.chroot = Some(String::from("jail"));
    assert_eq!(validate(&c.config), Err(ConfigError::PriorityOutOfRange));
}

#[test]
fn t_bindmount_parse() {
    let bm = BindMount::parse("/a:/b").unwrap();
    assert_eq!(bm.src, "/a");
    assert_eq!(bm.dst, "/b");
    let same = BindMount::parse("/xyz").unwrap();
    assert_eq!(same.src, "/xyz");
    assert_eq!(same.dst, "/xyz");
    assert_eq!(BindMount::parse(":/b"), Err(ConfigError::BindMountFormat));
    assert_eq!(BindMount::parse("/a:"), Err(ConfigError::BindMountFormat));
}

#[test]
fn t_bindmount_new_same() {
    let bm = BindMount::new_same(String::from("/data"));
    assert_eq!(bm.src, "/data");
    assert_eq!(bm.dst, "/data");
}

#[test]
fn t_is_success() {
    let ok = SandboxOutput { code: 0, signal: 0, real_time: 5, sys_time: 1, user_time: 1, memory: 64 };
    assert!(ok.is_success());
    let failed = SandboxOutput { code: 1, signal: 0, real_time: 5, sys_time: 1, user_time: 1, memory: 64 };
    assert!(!failed.is_success());
    let killed = SandboxOutput { code: 0, signal: 9, real_time: 5, sys_time: 1, user_time: 1, memory: 64 };
    assert!(!killed.is_success());
}
