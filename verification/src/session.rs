//! Child-process and PTY lifecycle.
//!
//! The session moves through `Unallocated -> Allocated -> Spawning ->
//! Running -> Exited`; allocation failure and spawn failure are absorbed
//! into `Exited` with a reported diagnostic. The step function is total:
//! an event that makes no sense in the current state changes nothing, so
//! late or repeated notifications are harmless by construction.
//!
//! A spawn failure is reported and the session is treated as ended; no
//! window-close request is issued for it, matching the log-only policy of
//! the reference behaviour.

use vstd::prelude::*;

verus! {

/// Where the session stands in its life.
#[derive(Debug, PartialEq, Eq, Clone, Copy, Structural)]
pub enum SessionState {
    /// No pseudo-terminal exists yet.
    Unallocated,
    /// The pseudo-terminal pair was obtained from the operating system.
    Allocated,
    /// Asynchronous child creation was requested and is pending.
    Spawning,
    /// The child runs; byte I/O belongs to the terminal widget.
    Running,
    /// The session is over; nothing further may be spawned or reported.
    Exited,
}

/// What the outside world tells the session.
pub enum SessionEvent {
    /// The operating system handed over a pseudo-terminal pair.
    PtyAllocated,
    /// The operating system refused a pseudo-terminal pair.
    PtyAllocationFailed,
    /// The caller asks for the child to be spawned.
    SpawnRequested,
    /// The spawn callback confirmed the child started.
    SpawnSucceeded,
    /// The spawn callback reported a failure, with its detail.
    SpawnFailed(String),
    /// End of session: the child exited or its stream reached EOF.
    SessionEnded,
}

/// What the caller must do after a step.
pub enum SessionAction {
    /// Nothing.
    DoNothing,
    /// Exit fatally: no terminal surface can exist without a PTY.
    ReportAllocationFailure,
    /// Spawn the child attached to the PTY and hand the PTY to the widget.
    SpawnChild,
    /// Surface the spawn failure's detail as a diagnostic.
    ReportSpawnError(String),
    /// Tell the window-lifecycle bridge that the session ended.
    NotifyEndOfSession,
}

/// The full transition table of the session: next state and action for
/// every state and event.
pub open spec fn session_step(s: SessionState, ev: SessionEvent) -> (SessionState, SessionAction) {
    match ev {
        SessionEvent::PtyAllocated => if s is Unallocated {
            (SessionState::Allocated, SessionAction::DoNothing)
        } else {
            (s, SessionAction::DoNothing)
        },
        SessionEvent::PtyAllocationFailed => if s is Unallocated {
            (SessionState::Exited, SessionAction::ReportAllocationFailure)
        } else {
            (s, SessionAction::DoNothing)
        },
        SessionEvent::SpawnRequested => if s is Allocated {
            (SessionState::Spawning, SessionAction::SpawnChild)
        } else {
            (s, SessionAction::DoNothing)
        },
        SessionEvent::SpawnSucceeded => if s is Spawning {
            (SessionState::Running, SessionAction::DoNothing)
        } else {
            (s, SessionAction::DoNothing)
        },
        SessionEvent::SpawnFailed(detail) => if s is Spawning {
            (SessionState::Exited, SessionAction::ReportSpawnError(detail))
        } else {
            (s, SessionAction::DoNothing)
        },
        SessionEvent::SessionEnded => if s is Exited {
            (SessionState::Exited, SessionAction::DoNothing)
        } else {
            (SessionState::Exited, SessionAction::NotifyEndOfSession)
        },
    }
}

/// Owns the PTY/child lifecycle of one session.
pub struct PtySession {
    /// Where the session stands.
    pub state: SessionState,
}

impl PtySession {
    /// A fresh session with nothing allocated.
    pub fn new() -> (s: Self)
        ensures
            s.state is Unallocated,
    {
        PtySession { state: SessionState::Unallocated }
    }

    /// Feeds one event through the transition table and says what the
    /// caller must do next.
    pub fn step(&mut self, ev: SessionEvent) -> (a: SessionAction)
        ensures
            (final(self).state, a) == session_step(old(self).state, ev),
    {
        match ev {
            SessionEvent::PtyAllocated => {
                if self.state == SessionState::Unallocated {
                    self.state = SessionState::Allocated;
                }
                SessionAction::DoNothing
            },
            SessionEvent::PtyAllocationFailed => {
                if self.state == SessionState::Unallocated {
                    self.state = SessionState::Exited;
                    SessionAction::ReportAllocationFailure
                } else {
                    SessionAction::DoNothing
                }
            },
            SessionEvent::SpawnRequested => {
                if self.state == SessionState::Allocated {
                    self.state = SessionState::Spawning;
                    SessionAction::SpawnChild
                } else {
                    SessionAction::DoNothing
                }
            },
            SessionEvent::SpawnSucceeded => {
                if self.state == SessionState::Spawning {
                    self.state = SessionState::Running;
                }
                SessionAction::DoNothing
            },
            SessionEvent::SpawnFailed(detail) => {
                if self.state == SessionState::Spawning {
                    self.state = SessionState::Exited;
                    SessionAction::ReportSpawnError(detail)
                } else {
                    SessionAction::DoNothing
                }
            },
            SessionEvent::SessionEnded => {
                if self.state == SessionState::Exited {
                    SessionAction::DoNothing
                } else {
                    self.state = SessionState::Exited;
                    SessionAction::NotifyEndOfSession
                }
            },
        }
    }
}

/// Once the session has exited, every further event leaves it exited and
/// asks for nothing: late notifications are silent no-ops.
pub proof fn lemma_exited_absorbs(ev: SessionEvent)
    ensures
        session_step(SessionState::Exited, ev).0 is Exited,
        session_step(SessionState::Exited, ev).1 is DoNothing,
{
}

/// The end-of-session transition is single-shot: after one `SessionEnded`
/// the state is exited, so a second one asks for nothing.
pub proof fn lemma_session_end_single_shot(s: SessionState)
    ensures
        session_step(s, SessionEvent::SessionEnded).0 is Exited,
        session_step(
            session_step(s, SessionEvent::SessionEnded).0,
            SessionEvent::SessionEnded,
        ).1 is DoNothing,
{
}

/// A spawn is only ever requested on an allocated PTY: the `SpawnChild`
/// action arises from the `Allocated` state alone.
pub proof fn lemma_spawn_needs_allocation(s: SessionState, ev: SessionEvent)
    ensures
        session_step(s, ev).1 is SpawnChild ==> s is Allocated && ev is SpawnRequested,
{
}

/// The argument vector handed to the spawner: the shell alone for an
/// interactive session, or `shell -c command` for a one-shot command.
pub fn build_spawn_argv(shell: &str, one_shot_command: &Option<String>) -> (argv: Vec<String>)
    ensures
        match one_shot_command {
            None => argv@.len() == 1 && argv@[0]@ == shell@,
            Some(c) => argv@.len() == 3 && argv@[0]@ == shell@ && argv@[1]@ == "-c"@ && argv@[2]@
                == c@,
        },
{
    let mut argv: Vec<String> = Vec::new();
    argv.push(String::from_str(shell));
    match one_shot_command {
        Some(c) => {
            argv.push(String::from_str("-c"));
            argv.push(c.clone());
        },
        None => {},
    }
    argv
}

} // verus!
