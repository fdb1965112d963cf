use livewall::daemon::{
    DaemonError, DaemonManager, KillReport, RestartAction, RestartEvent, RestartStep,
};

fn ok_kill() -> RestartEvent {
    RestartEvent::Killed(KillReport::Exited { success: true, stderr: String::new() })
}

fn say(s: &str) -> RestartAction {
    RestartAction::Say(s.to_string())
}

#[test]
fn kill_outcomes() {
    assert_eq!(DaemonManager::kill_process("x", &KillReport::Exited { success: true, stderr: "noise".into() }), Ok(()));
    assert_eq!(
        DaemonManager::kill_process(
            "x",
            &KillReport::Exited {
                success: false,
                stderr: "No matching processes belonging to you were found\n".into()
            }
        ),
        Ok(())
    );
    let e = DaemonManager::kill_process("x", &KillReport::Exited { success: false, stderr: "denied".into() }).unwrap_err();
    assert_eq!(e, DaemonError::KillFailed { name: "x".into(), stderr: "denied".into() });
    assert_eq!(e.message(), "Failed to kill x: denied");
    let e = DaemonManager::kill_process("x", &KillReport::NotLaunched("no killall".into())).unwrap_err();
    assert_eq!(e, DaemonError::Launch("no killall".into()));
    assert_eq!(e.message(), "no killall");
}

#[test]
fn restart_in_order_when_daemons_come_back() {
    let mut m = DaemonManager::restart_daemons("WallpaperAerialsExtension", "WallpaperAgent");
    assert_eq!(m.next(&RestartEvent::Proceed), say("Restarting daemons: WallpaperAerialsExtension and WallpaperAgent"));
    assert_eq!(m.next(&RestartEvent::Proceed), RestartAction::Kill("WallpaperAerialsExtension".into()));
    assert_eq!(m.next(&ok_kill()), RestartAction::Sleep(1));
    assert_eq!(m.next(&RestartEvent::Proceed), RestartAction::Kill("WallpaperAgent".into()));
    assert_eq!(m.next(&ok_kill()), RestartAction::Sleep(1));
    assert_eq!(m.next(&RestartEvent::Proceed), RestartAction::Check("WallpaperAerialsExtension".into()));
    assert_eq!(m.next(&RestartEvent::Running(true)), RestartAction::Check("WallpaperAgent".into()));
    assert_eq!(m.next(&RestartEvent::Running(true)), say("Daemons restarted successfully."));
    assert_eq!(m.next(&RestartEvent::Proceed), RestartAction::Done(Ok(())));
    assert_eq!(m.step, RestartStep::Finished);
}

#[test]
fn restart_waits_longer_then_succeeds() {
    let mut m = DaemonManager::restart_daemons("r", "a");
    m.next(&RestartEvent::Proceed);
    m.next(&RestartEvent::Proceed);
    m.next(&ok_kill());
    m.next(&RestartEvent::Proceed);
    m.next(&ok_kill());
    m.next(&RestartEvent::Proceed);
    assert_eq!(m.next(&RestartEvent::Running(false)), RestartAction::Sleep(2));
    assert_eq!(m.next(&RestartEvent::Proceed), RestartAction::Check("r".into()));
    assert_eq!(m.next(&RestartEvent::Running(true)), RestartAction::Check("a".into()));
    assert_eq!(m.next(&RestartEvent::Running(true)), say("Daemons restarted successfully (delayed)."));
    assert_eq!(m.next(&RestartEvent::Proceed), RestartAction::Done(Ok(())));
}

#[test]
fn law_checks_never_fail_on_values() {
    let mut m = DaemonManager::restart_daemons("r", "a");
    m.next(&RestartEvent::Proceed);
    m.next(&RestartEvent::Proceed);
    m.next(&ok_kill());
    m.next(&RestartEvent::Proceed);
    m.next(&ok_kill());
    m.next(&RestartEvent::Proceed);
    assert_eq!(m.next(&RestartEvent::Running(true)), RestartAction::Check("a".into()));
    assert_eq!(m.next(&RestartEvent::Running(false)), RestartAction::Sleep(2));
    m.next(&RestartEvent::Proceed);
    assert_eq!(
        m.next(&RestartEvent::Running(false)),
        say("Warning: Daemons did not reappear immediately, but launchd should restart them.")
    );
    assert_eq!(m.next(&RestartEvent::Proceed), RestartAction::Done(Ok(())));
}

#[test]
fn law_kill_failure_is_fatal_on_values() {
    let mut m = DaemonManager::restart_daemons("r", "a");
    m.next(&RestartEvent::Proceed);
    m.next(&RestartEvent::Proceed);
    m.next(&ok_kill());
    m.next(&RestartEvent::Proceed);
    let bad = RestartEvent::Killed(KillReport::Exited { success: false, stderr: "nope".into() });
    let expected = DaemonError::KillFailed { name: "a".into(), stderr: "nope".into() };
    assert_eq!(m.next(&bad), RestartAction::Done(Err(expected.clone())));
    assert_eq!(m.step, RestartStep::Failed);
    assert_eq!(m.next(&RestartEvent::Proceed), RestartAction::Done(Err(expected)));
}

#[test]
fn unanswered_kill_is_asked_again() {
    let mut m = DaemonManager::restart_daemons("r", "a");
    m.next(&RestartEvent::Proceed);
    assert_eq!(m.next(&RestartEvent::Proceed), RestartAction::Kill("r".into()));
    assert_eq!(m.next(&RestartEvent::Running(true)), RestartAction::Kill("r".into()));
    assert_eq!(m.step, RestartStep::KillingRenderer);
}

#[test]
fn law_restart_terminates_on_values() {
    let mut m = DaemonManager::restart_daemons("r", "a");
    let mut count = 0;
    loop {
        let event = match m.step {
            RestartStep::KillingRenderer | RestartStep::KillingAgent => ok_kill(),
            RestartStep::CheckingRenderer { .. } | RestartStep::CheckingAgent { .. } => RestartEvent::Running(false),
            _ => RestartEvent::Proceed,
        };
        count += 1;
        if let RestartAction::Done(r) = m.next(&event) {
            assert_eq!(r, Ok(()));
            break;
        }
        assert!(count < 20);
    }
    assert!(count <= 12);
}
