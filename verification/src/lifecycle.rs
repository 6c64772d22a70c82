//! Window-lifecycle bridge.
//!
//! Terminal callbacks (title changed, end of session) outlive the window
//! they speak about, so the bridge never holds the window itself: it holds
//! a liveness token and asks a registry whether that window is still
//! there. A notification for a window that is gone is a silent no-op, and
//! at most one close request is ever issued per session, however many end
//! signals arrive.

use vstd::prelude::*;

verus! {

/// Knows which windows are still alive. Identifiers are never reused, so
/// a token kept by a long-lived callback stays meaningful after the
/// window is gone.
pub struct WindowRegistry {
    slots: Vec<bool>,
}

impl WindowRegistry {
    /// How many windows were ever registered.
    pub closed spec fn window_count(self) -> nat {
        self.slots@.len()
    }

    /// Is the window with this token still alive?
    pub closed spec fn spec_is_live(self, id: int) -> bool {
        0 <= id < self.slots@.len() && self.slots@[id]
    }

    /// An empty registry: no window was ever registered.
    pub fn new() -> (r: Self)
        ensures
            r.window_count() == 0,
            forall|id: int| !r.spec_is_live(id),
    {
        WindowRegistry { slots: Vec::new() }
    }

    /// Registers a new live window and hands back its token.
    pub fn register(&mut self) -> (id: usize)
        ensures
            id == old(self).window_count(),
            final(self).window_count() == old(self).window_count() + 1,
            final(self).spec_is_live(id as int),
            forall|j: int| j != id ==> final(self).spec_is_live(j) == old(self).spec_is_live(j),
    {
        let id = self.slots.len();
        self.slots.push(true);
        id
    }

    /// Marks a window as gone. A token that was never handed out changes
    /// nothing.
    pub fn mark_destroyed(&mut self, id: usize)
        ensures
            final(self).window_count() == old(self).window_count(),
            !final(self).spec_is_live(id as int),
            forall|j: int| j != id ==> final(self).spec_is_live(j) == old(self).spec_is_live(j),
    {
        if id < self.slots.len() {
            self.slots[id] = false;
        }
    }

    /// Asks whether the window with this token is still alive.
    pub fn is_live(&self, id: usize) -> (r: bool)
        ensures
            r == self.spec_is_live(id as int),
    {
        id < self.slots.len() && self.slots[id]
    }
}

/// What the terminal widget reports about a running session.
pub enum TerminalEvent {
    /// The child retitled its terminal; `None` when no title is available.
    TitleChanged(Option<String>),
    /// The session ended: the child exited or its stream reached EOF.
    SessionEnded,
}

/// What the bridge asks the windowing layer to do.
pub enum WindowCommand {
    /// Nothing: the window is gone or the event carried nothing.
    DoNothing,
    /// Show this title on the window.
    SetTitle(String),
    /// Close the window.
    Close,
}

/// Translates terminal events into window mutations for one session,
/// deduplicating close requests.
pub struct LifecycleBridge {
    /// Liveness token of the window this bridge serves.
    pub window: usize,
    /// A close request was already issued for this session.
    pub close_issued: bool,
}

/// The full behaviour of the bridge: new bridge state and window command
/// for every event, given whether the window is still alive.
pub open spec fn bridge_step(b: LifecycleBridge, window_live: bool, ev: TerminalEvent) -> (
    LifecycleBridge,
    WindowCommand,
) {
    match ev {
        TerminalEvent::TitleChanged(t) => (
            b,
            if window_live && t is Some {
                WindowCommand::SetTitle(t->0)
            } else {
                WindowCommand::DoNothing
            },
        ),
        TerminalEvent::SessionEnded => if window_live && !b.close_issued {
            (
                LifecycleBridge { window: b.window, close_issued: true },
                WindowCommand::Close,
            )
        } else {
            (b, WindowCommand::DoNothing)
        },
    }
}

impl LifecycleBridge {
    /// A fresh bridge for one window; no close request was issued yet.
    pub fn new(window: usize) -> (b: Self)
        ensures
            b.window == window,
            !b.close_issued,
    {
        LifecycleBridge { window, close_issued: false }
    }

    /// Handles one terminal event, looking the window up in the registry,
    /// and says what the windowing layer must do.
    pub fn handle_event(&mut self, registry: &WindowRegistry, ev: TerminalEvent) -> (cmd:
        WindowCommand)
        ensures
            (*final(self), cmd) == bridge_step(
                *old(self),
                registry.spec_is_live(old(self).window as int),
                ev,
            ),
    {
        let live = registry.is_live(self.window);
        match ev {
            TerminalEvent::TitleChanged(t) => {
                if live {
                    match t {
                        Some(title) => WindowCommand::SetTitle(title),
                        None => WindowCommand::DoNothing,
                    }
                } else {
                    WindowCommand::DoNothing
                }
            },
            TerminalEvent::SessionEnded => {
                if live && !self.close_issued {
                    self.close_issued = true;
                    WindowCommand::Close
                } else {
                    WindowCommand::DoNothing
                }
            },
        }
    }
}

/// A close request both needs and sets the once-only mark, and the mark
/// never clears: over any run of events, at most one close request is
/// ever issued.
pub proof fn lemma_close_marks_bridge(b: LifecycleBridge, window_live: bool, ev: TerminalEvent)
    ensures
        ({
            let (b2, cmd) = bridge_step(b, window_live, ev);
            &&& (cmd is Close ==> !b.close_issued && b2.close_issued)
            &&& (b.close_issued ==> b2.close_issued)
        }),
{
}

/// Two end-of-session signals for one live session yield exactly one
/// close request: the first closes the window, the second is a no-op,
/// whatever the window's liveness has become by then.
pub proof fn lemma_session_end_closes_once(b: LifecycleBridge, live_then: bool)
    requires
        !b.close_issued,
    ensures
        ({
            let (b1, cmd1) = bridge_step(b, true, TerminalEvent::SessionEnded);
            let (b2, cmd2) = bridge_step(b1, live_then, TerminalEvent::SessionEnded);
            cmd1 is Close && cmd2 is DoNothing
        }),
{
}

/// A title change never mutates the bridge: title notifications may
/// arrive any number of times, in any interleaving, and stay harmless.
pub proof fn lemma_title_leaves_state(b: LifecycleBridge, window_live: bool, t: Option<String>)
    ensures
        bridge_step(b, window_live, TerminalEvent::TitleChanged(t)).0 == b,
{
}

/// A notification for a window that is already gone mutates nothing and
/// asks for nothing.
pub proof fn lemma_dead_window_is_noop(b: LifecycleBridge, ev: TerminalEvent)
    ensures
        bridge_step(b, false, ev).0 == b,
        bridge_step(b, false, ev).1 is DoNothing,
{
}

} // verus!
