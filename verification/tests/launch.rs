use glaunch::launch::{
    launch_failure, step, LaunchAction, LaunchEvent, LaunchState, GRACE_DELAY_SECS, MAX_ATTEMPTS,
    RETRY_DELAY_SECS,
};

#[test]
fn delays_and_attempts() {
    assert_eq!(GRACE_DELAY_SECS, 2);
    assert_eq!(RETRY_DELAY_SECS, 1);
    assert_eq!(MAX_ATTEMPTS, 5);
}

#[test]
fn launch_that_is_matched_at_once() {
    let (s, a) = step(LaunchState::Untracked, LaunchEvent::Requested);
    assert_eq!((s, a), (LaunchState::Launching, LaunchAction::StartGame));
    let (s, a) = step(s, LaunchEvent::Launched);
    assert_eq!(s, LaunchState::Starting { attempts_left: 5 });
    assert_eq!(a, LaunchAction::WaitThenCorrelate { seconds: 2 });
    let (s, a) = step(s, LaunchEvent::Matched);
    assert_eq!((s, a), (LaunchState::Active, LaunchAction::ReportSuccess));
    let (s, a) = step(s, LaunchEvent::Exited);
    assert_eq!((s, a), (LaunchState::Untracked, LaunchAction::Idle));
}

#[test]
fn launch_that_fails() {
    let (s, _) = step(LaunchState::Untracked, LaunchEvent::Requested);
    let (s, a) = step(s, LaunchEvent::LaunchFailed);
    assert_eq!((s, a), (LaunchState::Untracked, LaunchAction::ReportFailure));
}

#[test]
fn five_misses_fail_the_launch() {
    let mut state = step(LaunchState::Launching, LaunchEvent::Launched).0;
    for left in [4u32, 3, 2, 1] {
        let (s, a) = step(state, LaunchEvent::NotMatched);
        assert_eq!(s, LaunchState::Starting { attempts_left: left });
        assert_eq!(a, LaunchAction::WaitThenCorrelate { seconds: 1 });
        state = s;
    }
    let (s, a) = step(state, LaunchEvent::NotMatched);
    assert_eq!((s, a), (LaunchState::Untracked, LaunchAction::ReportFailure));
}

#[test]
fn match_on_the_last_attempt_still_counts() {
    let (s, a) = step(LaunchState::Starting { attempts_left: 1 }, LaunchEvent::Matched);
    assert_eq!((s, a), (LaunchState::Active, LaunchAction::ReportSuccess));
    let (s, a) = step(LaunchState::Starting { attempts_left: 0 }, LaunchEvent::NotMatched);
    assert_eq!((s, a), (LaunchState::Untracked, LaunchAction::ReportFailure));
}

#[test]
fn events_that_do_not_fit_change_nothing() {
    let states = [
        LaunchState::Untracked,
        LaunchState::Launching,
        LaunchState::Starting { attempts_left: 3 },
        LaunchState::Active,
    ];
    assert_eq!(step(states[0], LaunchEvent::Matched), (states[0], LaunchAction::Idle));
    assert_eq!(step(states[0], LaunchEvent::Exited), (states[0], LaunchAction::Idle));
    assert_eq!(step(states[1], LaunchEvent::Requested), (states[1], LaunchAction::Idle));
    assert_eq!(step(states[1], LaunchEvent::NotMatched), (states[1], LaunchAction::Idle));
    assert_eq!(step(states[2], LaunchEvent::Launched), (states[2], LaunchAction::Idle));
    assert_eq!(step(states[2], LaunchEvent::Exited), (states[2], LaunchAction::Idle));
    assert_eq!(step(states[3], LaunchEvent::Requested), (states[3], LaunchAction::Idle));
    assert_eq!(step(states[3], LaunchEvent::NotMatched), (states[3], LaunchAction::Idle));
}

#[test]
fn failure_messages() {
    assert_eq!(launch_failure().message, "Game not found or couldn't be launched");
}
