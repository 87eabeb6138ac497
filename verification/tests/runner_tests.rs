use bootuefi::Config;
use bootuefi::EmuAction;
use bootuefi::EmuEvent;
use bootuefi::EmuSession;
use bootuefi::EmuStatus;
use bootuefi::RunError;

#[test]
fn test_mode_success_code_passes() {
    let mut s = EmuSession::new(true, 42);
    assert_eq!(s.next_action(), EmuAction::Spawn);
    s.on_event(EmuEvent::SpawnOk);
    assert_eq!(s.next_action(), EmuAction::Wait);
    s.on_event(EmuEvent::ExitCode(42));
    assert_eq!(s.status, EmuStatus::Finished(0));
    assert!(s.is_done());
}

#[test]
fn test_mode_wrong_code_fails() {
    let mut s = EmuSession::new(true, 42);
    s.on_event(EmuEvent::SpawnOk);
    s.on_event(EmuEvent::ExitCode(7));
    assert_eq!(s.status, EmuStatus::Finished(7));
}

#[test]
fn test_mode_timeout_kills_then_reaps_then_fails() {
    let mut s = EmuSession::new(true, 0);
    s.on_event(EmuEvent::SpawnOk);
    s.on_event(EmuEvent::WaitExpired);
    assert_eq!(s.next_action(), EmuAction::Kill);
    s.on_event(EmuEvent::KillOk);
    assert_eq!(s.next_action(), EmuAction::Reap);
    s.on_event(EmuEvent::ReapOk);
    assert_eq!(s.status, EmuStatus::Failed(RunError::TimedOut));
    assert_eq!(s.next_action(), EmuAction::Report);
}

#[test]
fn test_mode_signalled_emulator_yields_one() {
    let mut s = EmuSession::new(true, 0);
    s.on_event(EmuEvent::SpawnOk);
    s.on_event(EmuEvent::Signalled);
    assert_eq!(s.status, EmuStatus::Finished(1));
}

#[test]
fn run_mode_passes_exit_code_through() {
    let mut s = EmuSession::new(false, 0);
    s.on_event(EmuEvent::SpawnOk);
    s.on_event(EmuEvent::ExitCode(3));
    assert_eq!(s.status, EmuStatus::Finished(3));
}

#[test]
fn spawn_failure_is_fatal() {
    let mut s = EmuSession::new(false, 0);
    s.on_event(EmuEvent::SpawnErr);
    assert_eq!(s.status, EmuStatus::Failed(RunError::SpawnFailed));
}

#[test]
fn kill_and_reap_failures_are_fatal() {
    let mut s = EmuSession::new(true, 0);
    s.on_event(EmuEvent::SpawnOk);
    s.on_event(EmuEvent::WaitExpired);
    s.on_event(EmuEvent::KillErr);
    assert_eq!(s.status, EmuStatus::Failed(RunError::KillFailed));

    let mut s = EmuSession::new(true, 0);
    s.on_event(EmuEvent::SpawnOk);
    s.on_event(EmuEvent::WaitExpired);
    s.on_event(EmuEvent::KillOk);
    s.on_event(EmuEvent::ReapErr);
    assert_eq!(s.status, EmuStatus::Failed(RunError::ReapFailed));
}

#[test]
fn wait_failure_is_fatal() {
    let mut s = EmuSession::new(true, 0);
    s.on_event(EmuEvent::SpawnOk);
    s.on_event(EmuEvent::WaitErr);
    assert_eq!(s.status, EmuStatus::Failed(RunError::WaitFailed));
}

#[test]
fn scenario_custom_success_code_with_run_args() {
    let c = Config {
        qemu: None,
        bios: None,
        run_args: Some(vec!["-foo".to_string()]),
        test_args: None,
        default_args: None,
        test_success_exit_code: Some(42),
        test_timeout: None,
    };
    let p = c.build_profile(true, "esp");
    // run-args are for run mode; a test-mode profile ignores them
    assert!(!p.args.contains(&"-foo".to_string()));

    let mut s = EmuSession::new(true, p.test_success_exit_code);
    s.on_event(EmuEvent::SpawnOk);
    s.on_event(EmuEvent::ExitCode(42));
    assert_eq!(s.status, EmuStatus::Finished(0));

    let mut s = EmuSession::new(true, p.test_success_exit_code);
    s.on_event(EmuEvent::SpawnOk);
    s.on_event(EmuEvent::ExitCode(7));
    match s.status {
        EmuStatus::Finished(code) => assert_ne!(code, 0),
        other => panic!("unexpected status {:?}", other),
    }
}
