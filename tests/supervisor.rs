use talpid_openvpn::supervisor::{
    StopAction, StopEvent, StopOutcome, StopPhase, StopState, TakeOnce,
};

#[test]
fn take_once_then_nothing() {
    let mut slot = TakeOnce::new(5u32);
    assert!(slot.is_present());
    assert_eq!(slot.take(), Some(5));
    assert!(!slot.is_present());
    assert_eq!(slot.take(), None);
    assert_eq!(slot.take(), None);
}

fn run(events: &[StopEvent]) -> (StopState, Vec<Option<StopAction>>) {
    let mut s = StopState::new();
    let actions = events.iter().map(|e| s.step(*e)).collect();
    (s, actions)
}

#[test]
fn graceful_exit_never_kills() {
    let (s, actions) = run(&[
        StopEvent::Begin,
        StopEvent::StdinTaken { was_present: true },
        StopEvent::Exited,
    ]);
    assert_eq!(
        actions,
        vec![
            Some(StopAction::CloseStdin),
            Some(StopAction::WaitWithTimeout),
            Some(StopAction::Finish(StopOutcome::Graceful)),
        ]
    );
    assert_eq!(s.kills, 0);
    assert!(s.exited);
}

#[test]
fn timeout_kills_once_and_reaps() {
    let (s, actions) = run(&[
        StopEvent::Begin,
        StopEvent::StdinTaken { was_present: true },
        StopEvent::TimedOut,
        StopEvent::TimedOut,
        StopEvent::KillSucceeded,
        StopEvent::Exited,
    ]);
    assert_eq!(
        actions,
        vec![
            Some(StopAction::CloseStdin),
            Some(StopAction::WaitWithTimeout),
            Some(StopAction::Kill),
            None,
            Some(StopAction::WaitExit),
            Some(StopAction::Finish(StopOutcome::Killed)),
        ]
    );
    assert_eq!(s.kills, 1);
    assert!(s.exited);
    assert_eq!(s.phase, StopPhase::Finished(StopOutcome::Killed));
}

#[test]
fn failed_kill_is_reported() {
    let (s, actions) = run(&[
        StopEvent::Begin,
        StopEvent::StdinTaken { was_present: false },
        StopEvent::TimedOut,
        StopEvent::KillFailed,
    ]);
    assert_eq!(actions[3], Some(StopAction::Finish(StopOutcome::KillFailed)));
    assert_eq!(s.phase, StopPhase::Finished(StopOutcome::KillFailed));
    assert!(!s.exited);
}

#[test]
fn repeated_stdin_take_still_proceeds() {
    let (s, actions) = run(&[StopEvent::Begin, StopEvent::StdinTaken { was_present: false }]);
    assert_eq!(actions[1], Some(StopAction::WaitWithTimeout));
    assert_eq!(s.phase, StopPhase::Waiting);
}

#[test]
fn events_out_of_turn_are_ignored() {
    let (s, actions) = run(&[StopEvent::Exited, StopEvent::KillSucceeded, StopEvent::TimedOut]);
    assert_eq!(actions, vec![None, None, None]);
    assert_eq!(s, StopState::new());
}
