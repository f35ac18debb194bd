use carapace::Cgroup;
use carapace::Metrics;
use carapace::WaitEvent;
use carapace::combine_teardown;
use carapace::decode_wait_event;
use carapace::decode_wait_status;
use carapace::killall;
use carapace::make_output;
use carapace::send_signal;
use carapace::usec_of;
use carapace::wait_child;
use carapace::RunError;

#[test]
fn t_decode_wait_event() {
    assert_eq!(decode_wait_event(&WaitEvent::Exited(0)), Some((0, 0)));
    assert_eq!(decode_wait_event(&WaitEvent::Exited(3)), Some((3, 0)));
    assert_eq!(decode_wait_event(&WaitEvent::Signaled(9)), Some((0, 9)));
    assert_eq!(decode_wait_event(&WaitEvent::Signaled(31)), Some((0, 31)));
    assert_eq!(decode_wait_event(&WaitEvent::Other), None);
}

#[test]
fn t_decode_raw_wait_status() {
    // exit(1): code in bits 8..16, low bits zero.
    assert_eq!(decode_wait_status(0x0100), (Some(1), None));
    assert_eq!(decode_wait_status(0), (Some(0), None));
    // Killed by SIGKILL, SIGSEGV, SIGSYS.
    assert_eq!(decode_wait_status(9), (None, Some(9)));
    assert_eq!(decode_wait_status(11), (None, Some(11)));
    assert_eq!(decode_wait_status(31), (None, Some(31)));
}

#[test]
fn t_usec_of() {
    assert_eq!(usec_of(1, 500_000), 1_500_000);
    assert_eq!(usec_of(0, 0), 0);
}

#[test]
fn t_make_output_conversions() {
    let m = Metrics { sys_time: 2_500_000, user_time: 999_999, memory: 2048 };
    let out = make_output(0, 9, 1000, &m);
    assert_eq!(out.code, 0);
    assert_eq!(out.signal, 9);
    assert_eq!(out.real_time, 1000);
    assert_eq!(out.sys_time, 2);
    assert_eq!(out.user_time, 0);
    assert_eq!(out.memory, 2);
    assert!(!out.is_success());
}

#[test]
fn t_combine_teardown_priority() {
    let m = Metrics { sys_time: 1, user_time: 2, memory: 3 };
    assert_eq!(combine_teardown(Ok(m.clone()), Ok(())), Ok(m.clone()));
    assert_eq!(
        combine_teardown(Ok(m.clone()), Err(13)),
        Err(RunError::Cleanup(13))
    );
    // A collection failure wins even when cleanup failed too.
    assert_eq!(
        combine_teardown(Err(7), Err(13)),
        Err(RunError::Collect(7))
    );
}

#[test]
fn t_wait_child_no_such_child() {
    // This process has no child to reap: errno ECHILD (10).
    assert_eq!(wait_child(-1), Err(10));
}

#[test]
fn t_signals_robust() {
    // An empty pid list is a no-op.
    killall(&Vec::new());
    // Signal number 0 is not a deliverable signal; the wrapper reports it.
    assert!(send_signal(1, 0).is_err());
}

#[test]
fn t_cgroup_write_read_round_trip() {
    // Exercise the open/write/read wrappers through a real file.
    assert!(Cgroup::write_type("/tmp", "carapace_round_trip_test", 4242).is_ok());
    let reading = Cgroup::read_type("/tmp", "carapace_round_trip_test").unwrap();
    assert_eq!(reading.value, 4242);
    assert_eq!(reading.raw, b"4242".to_vec());
    let raw = Cgroup::read_string("/tmp", "carapace_round_trip_test").unwrap();
    assert_eq!(raw, b"4242".to_vec());
}

#[test]
fn t_cgroup_create_names_failing_dir_or_cleans_up() {
    // Depending on the host, creating the v1 controller directories may
    // fail (no such controller hierarchy) or succeed; a failure must name
    // one of the three canonical directories, and a success is torn down.
    let name = "carapace_create_probe_test";
    match Cgroup::create(name) {
        Err(e) => {
            let expected = [
                format!("/sys/fs/cgroup/cpu/{}", name),
                format!("/sys/fs/cgroup/memory/{}", name),
                format!("/sys/fs/cgroup/pids/{}", name),
            ];
            assert!(expected.contains(&e.path));
        }
        Ok(cg) => {
            assert_eq!(cg.cpu(), format!("/sys/fs/cgroup/cpu/{}", name));
            let _ = carapace::cg_cleanup(cg);
        }
    }
}

#[test]
fn t_cgroup_ensure_dir_missing_parent() {
    let r = Cgroup::ensure_dir("/carapace_missing_parent_dir/child");
    assert!(r.is_err());
}

#[test]
fn t_pipe_round_trip_error_payload() {
    let (tx, rx) = carapace::create().unwrap();
    tx.write_error("boom: errno = 1").unwrap();
    let inner = rx.read_result().unwrap();
    assert_eq!(inner, Err(b"boom: errno = 1".to_vec()));
}

#[test]
fn t_pipe_empty_payload_is_success() {
    let (tx, rx) = carapace::create().unwrap();
    tx.close();
    let inner = rx.read_result().unwrap();
    assert_eq!(inner, Ok(()));
}

#[test]
fn t_classify_payload() {
    assert_eq!(carapace::classify_payload(Vec::new()), Ok(()));
    assert_eq!(carapace::classify_payload(b"x".to_vec()), Err(b"x".to_vec()));
}
