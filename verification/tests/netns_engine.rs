use ipctl::ipnetns::bind_etc_skip;
use ipctl::ipnetns::bind_source_path;
use ipctl::ipnetns::bind_target_path;
use ipctl::ipnetns::child_exit_status;
use ipctl::ipnetns::del_verdict;
use ipctl::ipnetns::enter_after_close;
use ipctl::ipnetns::enter_after_open;
use ipctl::ipnetns::enter_after_switch;
use ipctl::ipnetns::enter_start;
use ipctl::ipnetns::etc_netns_dir;
use ipctl::ipnetns::netns_path;
use ipctl::ipnetns::switch_after_bind_etc;
use ipctl::ipnetns::switch_after_check_read_only;
use ipctl::ipnetns::switch_after_detach_sys;
use ipctl::ipnetns::switch_after_enter;
use ipctl::ipnetns::switch_after_mount_sys;
use ipctl::ipnetns::switch_after_root_slave;
use ipctl::ipnetns::switch_after_unshare;
use ipctl::ipnetns::switch_start;
use ipctl::ipnetns::CallOutcome;
use ipctl::ipnetns::ChildOutcome;
use ipctl::ipnetns::EnterPhase;
use ipctl::ipnetns::SwitchPhase;
use ipctl::netlink::IpError;

#[test]
fn test_netns_paths() {
    assert_eq!(netns_path("vnetns1"), "/var/run/netns/vnetns1");
    assert_eq!(etc_netns_dir("vnetns1"), "/etc/netns/vnetns1");
    assert_eq!(
        bind_source_path("vnetns1", "resolv.conf"),
        "/etc/netns/vnetns1/resolv.conf"
    );
    assert_eq!(bind_target_path("resolv.conf"), "/etc/resolv.conf");
}

#[test]
fn test_bind_etc_skip_length_bound() {
    assert!(!bind_etc_skip("vnetns0"));
    assert!(!bind_etc_skip(&"a".repeat(255)));
    assert!(bind_etc_skip(&"a".repeat(256)));
}

#[test]
fn test_enter_engine_success_path() {
    let phase = enter_start();
    assert_eq!(phase, EnterPhase::OpenRef);
    let phase = enter_after_open("vnetns1", Ok(4));
    assert_eq!(phase, EnterPhase::SwitchNs { fd: 4 });
    let phase = enter_after_switch("vnetns1", 4, CallOutcome::Succeeded);
    assert_eq!(phase, EnterPhase::CloseRef { fd: 4, failure: None });
    let phase = enter_after_close(None, Ok(()));
    assert_eq!(phase, EnterPhase::Done { result: Ok(()) });
}

#[test]
fn test_enter_engine_open_failure() {
    let phase = enter_after_open("vnetns1", Err(String::from("No such file or directory")));
    assert_eq!(
        phase,
        EnterPhase::Done {
            result: Err(IpError::Resource {
                name: String::from("vnetns1"),
                os_err: String::from("No such file or directory"),
            }),
        }
    );
}

#[test]
fn test_enter_engine_switch_failure_still_closes() {
    let phase = enter_after_switch(
        "vnetns1",
        4,
        CallOutcome::Failed { os_err: String::from("Operation not permitted") },
    );
    let expected_failure = IpError::Resource {
        name: String::from("vnetns1"),
        os_err: String::from("Operation not permitted"),
    };
    assert_eq!(
        phase,
        EnterPhase::CloseRef { fd: 4, failure: Some(expected_failure.clone()) }
    );
    // the close happens first; the recorded failure is reported afterwards
    let phase = enter_after_close(Some(expected_failure.clone()), Ok(()));
    assert_eq!(phase, EnterPhase::Done { result: Err(expected_failure) });
}

#[test]
fn test_switch_engine_happy_path() {
    let phase = switch_start();
    assert_eq!(phase, SwitchPhase::EnterNs);
    let phase = switch_after_enter(Ok(()));
    assert_eq!(phase, SwitchPhase::UnshareMount);
    let phase = switch_after_unshare(CallOutcome::Succeeded);
    assert_eq!(phase, SwitchPhase::MakeRootSlave);
    let phase = switch_after_root_slave(CallOutcome::Succeeded);
    assert_eq!(phase, SwitchPhase::DetachSys);
    let phase = switch_after_detach_sys(true);
    assert_eq!(phase, SwitchPhase::MountSys { read_only: false });
    let phase = switch_after_mount_sys(CallOutcome::Succeeded);
    assert_eq!(phase, SwitchPhase::BindEtc);
    let phase = switch_after_bind_etc(0);
    assert_eq!(phase, SwitchPhase::Done { result: Ok(()) });
}

#[test]
fn test_switch_engine_read_only_fallback() {
    let phase = switch_after_detach_sys(false);
    assert_eq!(phase, SwitchPhase::CheckSysReadOnly);
    assert_eq!(
        switch_after_check_read_only(Some(true)),
        SwitchPhase::MountSys { read_only: true }
    );
    assert_eq!(
        switch_after_check_read_only(Some(false)),
        SwitchPhase::MountSys { read_only: false }
    );
    assert_eq!(
        switch_after_check_read_only(None),
        SwitchPhase::MountSys { read_only: false }
    );
}

#[test]
fn test_switch_engine_fatal_failures() {
    let phase = switch_after_enter(Err(IpError::Resource {
        name: String::from("vnetns1"),
        os_err: String::from("No such file or directory"),
    }));
    assert!(matches!(phase, SwitchPhase::Done { result: Err(_) }));

    let phase = switch_after_unshare(CallOutcome::Failed {
        os_err: String::from("Operation not permitted"),
    });
    match phase {
        SwitchPhase::Done { result: Err(IpError::Resource { name, .. }) } => {
            assert_eq!(name, "unshare");
        },
        _ => panic!("an unshare failure must end the switch"),
    }

    let phase = switch_after_root_slave(CallOutcome::Failed {
        os_err: String::from("Operation not permitted"),
    });
    match phase {
        SwitchPhase::Done { result: Err(IpError::Resource { name, .. }) } => {
            assert_eq!(name, "/");
        },
        _ => panic!("a root re-slave failure must end the switch"),
    }

    let phase = switch_after_mount_sys(CallOutcome::Failed {
        os_err: String::from("Device or resource busy"),
    });
    match phase {
        SwitchPhase::Done { result: Err(IpError::Resource { name, .. }) } => {
            assert_eq!(name, "/sys");
        },
        _ => panic!("a /sys mount failure must end the switch"),
    }
}

#[test]
fn test_switch_bind_failures_are_not_fatal() {
    assert_eq!(
        switch_after_bind_etc(3),
        SwitchPhase::Done { result: Ok(()) }
    );
}

#[test]
fn test_child_exit_status() {
    assert_eq!(child_exit_status(ChildOutcome::Completed), 0);
    assert_eq!(child_exit_status(ChildOutcome::SwitchFailed), 1);
    assert_eq!(child_exit_status(ChildOutcome::WorkFailed), 1);
    assert_ne!(child_exit_status(ChildOutcome::WorkFailed), 0);
}

#[test]
fn test_del_verdict() {
    assert_eq!(del_verdict("/var/run/netns/vnetns0", Ok(())), Ok(()));
    let r = del_verdict(
        "/var/run/netns/vnetns0",
        Err(String::from("No such file or directory")),
    );
    assert_eq!(
        r,
        Err(IpError::Resource {
            name: String::from("/var/run/netns/vnetns0"),
            os_err: String::from("No such file or directory"),
        })
    );
}
