//! The life of a launch: from the request, through the attempts to match
//! the game to a window, to an active session or a reported failure.
//!
//! The caller runs the loop. It performs the action it is given, waits
//! where it is told to, and hands back what happened.

use vstd::prelude::*;
use crate::error::AppError;

verus! {

/// How long a launched game is given before the first attempt to find
/// its window, in seconds.
pub const GRACE_DELAY_SECS: u64 = 2;

/// The pause between two attempts to find a game's window, in seconds.
pub const RETRY_DELAY_SECS: u64 = 1;

/// How many times a launched game's window is looked for.
pub const MAX_ATTEMPTS: u32 = 5;

/// Where a game stands.
#[derive(Debug, Clone, Copy, PartialEq, Eq, Structural)]
pub enum LaunchState {
    /// The game is not being played, as far as the library knows.
    Untracked,
    /// A launch was requested; its outcome is awaited.
    Launching,
    /// The game was launched and its window is being looked for;
    /// `attempts_left` attempts remain, this one included.
    Starting { attempts_left: u32 },
    /// The game has an active session.
    Active,
}

/// What happened.
#[derive(Debug, Clone, Copy, PartialEq, Eq, Structural)]
pub enum LaunchEvent {
    /// The user asked for the game to be launched.
    Requested,
    /// The launcher accepted the launch.
    Launched,
    /// The launcher refused or failed.
    LaunchFailed,
    /// An attempt matched the game to a window.
    Matched,
    /// An attempt found no window for the game.
    NotMatched,
    /// The game's process has exited.
    Exited,
}

/// What the caller has to do next.
#[derive(Debug, Clone, Copy, PartialEq, Eq, Structural)]
pub enum LaunchAction {
    /// Nothing.
    Idle,
    /// Run the game's launch command and report whether it went through.
    StartGame,
    /// Wait `seconds`, then try to match the game to a window.
    WaitThenCorrelate { seconds: u64 },
    /// Tell the user that the game is running.
    ReportSuccess,
    /// Tell the user that the launch failed. The game may still be
    /// running, untracked.
    ReportFailure,
}

/// The state after an event, and the action the event calls for.
///
/// A request starts a launch. A launch that goes through is followed,
/// after the grace delay, by up to [`MAX_ATTEMPTS`] attempts to find the
/// game's window, spaced by the retry delay. The first match makes the
/// game active; when the last attempt fails, the failure is reported and
/// the game is untracked again. An event that does not fit the state
/// changes nothing.
pub open spec fn transition(state: LaunchState, event: LaunchEvent) -> (LaunchState, LaunchAction) {
    match (state, event) {
        (LaunchState::Untracked, LaunchEvent::Requested) => (
            LaunchState::Launching,
            LaunchAction::StartGame,
        ),
        (LaunchState::Launching, LaunchEvent::Launched) => (
            LaunchState::Starting { attempts_left: MAX_ATTEMPTS },
            LaunchAction::WaitThenCorrelate { seconds: GRACE_DELAY_SECS },
        ),
        (LaunchState::Launching, LaunchEvent::LaunchFailed) => (
            LaunchState::Untracked,
            LaunchAction::ReportFailure,
        ),
        (LaunchState::Starting { attempts_left }, LaunchEvent::Matched) => (
            LaunchState::Active,
            LaunchAction::ReportSuccess,
        ),
        (LaunchState::Starting { attempts_left }, LaunchEvent::NotMatched) => if attempts_left > 1 {
            (
                LaunchState::Starting { attempts_left: (attempts_left - 1) as u32 },
                LaunchAction::WaitThenCorrelate { seconds: RETRY_DELAY_SECS },
            )
        } else {
            (LaunchState::Untracked, LaunchAction::ReportFailure)
        },
        (LaunchState::Active, LaunchEvent::Exited) => (LaunchState::Untracked, LaunchAction::Idle),
        _ => (state, LaunchAction::Idle),
    }
}

/// Computes the state after an event and the action it calls for: see
/// [`transition`].
pub fn step(state: LaunchState, event: LaunchEvent) -> (r: (LaunchState, LaunchAction))
    ensures
        r == transition(state, event),
{
    match state {
        LaunchState::Untracked => match event {
            LaunchEvent::Requested => (LaunchState::Launching, LaunchAction::StartGame),
            _ => (state, LaunchAction::Idle),
        },
        LaunchState::Launching => match event {
            LaunchEvent::Launched => (
                LaunchState::Starting { attempts_left: MAX_ATTEMPTS },
                LaunchAction::WaitThenCorrelate { seconds: GRACE_DELAY_SECS },
            ),
            LaunchEvent::LaunchFailed => (LaunchState::Untracked, LaunchAction::ReportFailure),
            _ => (state, LaunchAction::Idle),
        },
        LaunchState::Starting { attempts_left } => match event {
            LaunchEvent::Matched => (LaunchState::Active, LaunchAction::ReportSuccess),
            LaunchEvent::NotMatched => {
                if attempts_left > 1 {
                    (
                        LaunchState::Starting { attempts_left: attempts_left - 1 },
                        LaunchAction::WaitThenCorrelate { seconds: RETRY_DELAY_SECS },
                    )
                } else {
                    (LaunchState::Untracked, LaunchAction::ReportFailure)
                }
            },
            _ => (state, LaunchAction::Idle),
        },
        LaunchState::Active => match event {
            LaunchEvent::Exited => (LaunchState::Untracked, LaunchAction::Idle),
            _ => (state, LaunchAction::Idle),
        },
    }
}

/// The state after a run of failed attempts.
pub open spec fn after_misses(state: LaunchState, misses: nat) -> LaunchState
    decreases misses,
{
    if misses == 0 {
        state
    } else {
        transition(after_misses(state, (misses - 1) as nat), LaunchEvent::NotMatched).0
    }
}

/// While attempts remain, each failed attempt uses one up.
pub proof fn lemma_misses_count_down(attempts: u32, misses: nat)
    requires
        misses < attempts,
    ensures
        after_misses(LaunchState::Starting { attempts_left: attempts }, misses)
            == (LaunchState::Starting { attempts_left: (attempts - misses) as u32 }),
    decreases misses,
{
    if misses > 0 {
        lemma_misses_count_down(attempts, (misses - 1) as nat);
    }
}

/// A launch whose every attempt finds no window fails: after the launch
/// went through, the first four failed attempts each call for another
/// attempt, and the fifth reports the failure and leaves the game
/// untracked.
pub proof fn lemma_no_window_means_failure()
    ensures
        transition(LaunchState::Launching, LaunchEvent::Launched).0 == (LaunchState::Starting {
            attempts_left: MAX_ATTEMPTS,
        }),
        forall|k: nat|
            k < MAX_ATTEMPTS - 1 ==> (#[trigger] transition(
                after_misses(LaunchState::Starting { attempts_left: MAX_ATTEMPTS }, k),
                LaunchEvent::NotMatched,
            )).1 == (LaunchAction::WaitThenCorrelate { seconds: RETRY_DELAY_SECS }),
        transition(
            after_misses(
                LaunchState::Starting { attempts_left: MAX_ATTEMPTS },
                (MAX_ATTEMPTS - 1) as nat,
            ),
            LaunchEvent::NotMatched,
        ) == (LaunchState::Untracked, LaunchAction::ReportFailure),
        after_misses(LaunchState::Starting { attempts_left: MAX_ATTEMPTS }, MAX_ATTEMPTS as nat)
            == LaunchState::Untracked,
{
    assert forall|k: nat| k < MAX_ATTEMPTS - 1 implies (#[trigger] transition(
        after_misses(LaunchState::Starting { attempts_left: MAX_ATTEMPTS }, k),
        LaunchEvent::NotMatched,
    )).1 == (LaunchAction::WaitThenCorrelate { seconds: RETRY_DELAY_SECS }) by {
        lemma_misses_count_down(MAX_ATTEMPTS, k);
    }
    lemma_misses_count_down(MAX_ATTEMPTS, (MAX_ATTEMPTS - 1) as nat);
}

/// Success is reported only for a match, and failure only for a failed
/// launch or a failed last attempt.
pub proof fn lemma_reports(state: LaunchState, event: LaunchEvent)
    ensures
        transition(state, event).1 == LaunchAction::ReportSuccess <==> (state is Starting && event
            == LaunchEvent::Matched),
        transition(state, event).1 == LaunchAction::ReportFailure <==> ((state is Launching && event
            == LaunchEvent::LaunchFailed) || (state is Starting && event == LaunchEvent::NotMatched
            && state->attempts_left <= 1)),
        transition(state, event).0 is Active ==> (state is Active || (state is Starting && event
            == LaunchEvent::Matched)),
{
}

/// The failure that is reported to the user when a launch does not end
/// in an active session, whatever the game's platform.
pub open spec fn failure_message() -> Seq<char> {
    "Game not found or couldn't be launched"@
}

/// The failure that is reported to the user when a launch does not end
/// in an active session.
pub fn launch_failure() -> (e: AppError)
    ensures
        e@ == failure_message(),
{
    AppError::new(String::from_str("Game not found or couldn't be launched"))
}

} // verus!
