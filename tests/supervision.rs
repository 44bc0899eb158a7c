use nixos_conjurer::process::{
    check_command, child_exit_status, command_environment, conclude, on_wait_event, Error,
    ErrorKind, WaitDecision, WaitEvent,
};

#[test]
fn clean_exit_returns_the_work_value() {
    for n in 0..5u64 {
        let r: Result<u64, Error> = conclude(0, Some(Ok(n * 7)));
        assert_eq!(r.ok(), Some(n * 7));
    }
    let r: Result<String, Error> = conclude(0, Some(Ok("/nix/store/x".to_string())));
    assert_eq!(r.ok(), Some("/nix/store/x".to_string()));
}

#[test]
fn child_reported_error_is_handed_back() {
    let sent = Error::new(ErrorKind::Command, "the build failed");
    let r: Result<u64, Error> = conclude(1, Some(Err(sent)));
    let e = r.err().unwrap();
    assert_eq!(e.kind(), ErrorKind::Command);
    assert_eq!(e.message(), "the build failed");
}

#[test]
fn unreadable_channel_after_clean_exit() {
    let r: Result<u64, Error> = conclude(0, None);
    assert_eq!(r.err().unwrap().kind(), ErrorKind::ChannelUnreadable);
}

#[test]
fn failing_exit_without_outcome() {
    let r: Result<u64, Error> = conclude(3, None);
    let e = r.err().unwrap();
    assert_eq!(e.kind(), ErrorKind::ChildExited(3));
    assert_eq!(e.message(), "child exited with status 3");
    let r: Result<u64, Error> = conclude(-12, None);
    assert_eq!(r.err().unwrap().message(), "child exited with status -12");
    let r: Result<u64, Error> = conclude(255, None);
    assert_eq!(r.err().unwrap().message(), "child exited with status 255");
}

#[test]
fn stopped_child_is_relayed() {
    assert_eq!(on_wait_event(WaitEvent::Stopped(19)), WaitDecision::StopSelfThenContinueChild);
    assert_eq!(on_wait_event(WaitEvent::Stopped(20)), WaitDecision::StopSelfThenContinueChild);
}

#[test]
fn wait_decisions() {
    assert_eq!(on_wait_event(WaitEvent::Exited(0)), WaitDecision::Collect(0));
    assert_eq!(on_wait_event(WaitEvent::Exited(2)), WaitDecision::Collect(2));
    assert_eq!(on_wait_event(WaitEvent::Signaled(9)), WaitDecision::Reraise(9));
    assert_eq!(on_wait_event(WaitEvent::Other), WaitDecision::KeepWaiting);
    assert_eq!(on_wait_event(WaitEvent::Failed), WaitDecision::Abort);
}

#[test]
fn child_exit_statuses() {
    assert_eq!(child_exit_status(true), 0);
    assert_eq!(child_exit_status(false), 1);
}

#[test]
fn sandbox_command_environment() {
    let env = command_environment();
    assert_eq!(
        env,
        vec![
            (
                "PATH".to_string(),
                "/nix/var/nix/profiles/default/bin:/usr/sbin:/usr/bin:/sbin:/bin".to_string()
            ),
            ("TMPDIR".to_string(), "/tmp".to_string()),
            ("HOME".to_string(), "/root".to_string()),
        ]
    );
}

#[test]
fn command_exit_checked() {
    assert!(check_command("apk", true, "").is_ok());
    let e = check_command("apk", false, "ERROR: unable to select packages").err().unwrap();
    assert_eq!(e.kind(), ErrorKind::Command);
    assert_eq!(
        e.message(),
        "the `apk` command returned non-zero status:\nERROR: unable to select packages"
    );
}
