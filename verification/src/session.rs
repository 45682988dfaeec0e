//! Capture Session Manager: the lifecycle of the single active capture
//! stream.
//!
//! At most one stream is bound at a time. The manager decides the
//! transitions and hands out the commands the OS capture subsystem must
//! perform — stop the old stream, open the new one — while the surrounding
//! application executes them and reports back whether an open succeeded.
//! A failed stop never blocks starting the replacement: the stop command
//! is emitted first and the manager moves on regardless.

use vstd::prelude::*;

verus! {

/// Lifecycle states of the manager. `Starting` covers the window between
/// requesting a stream and hearing whether the OS accepted it; teardown
/// completes within `stop` itself, so no stopping state lingers.
#[derive(Debug, Clone, Copy, PartialEq, Eq, Structural)]
pub enum SessionState {
    /// No session exists.
    Idle,
    /// A session was created for this window and its start requested.
    Starting { window_id: u32 },
    /// Frames are flowing for this window.
    Active { window_id: u32 },
}

/// One instruction to the OS capture subsystem, emitted by the manager
/// and performed outside.
#[derive(Debug, Clone, Copy, PartialEq, Eq, Structural)]
pub enum CaptureCommand {
    /// Tear down the stream bound to this window; idempotent outside.
    Stop {
        /// The window whose stream is released.
        window_id: u32,
    },
    /// Open a stream bound to this window, frame size fixed to the
    /// window's reported size at scan time, cursor capture disabled.
    Open {
        /// The window to bind.
        window_id: u32,
        /// Fixed frame width.
        width: u32,
        /// Fixed frame height.
        height: u32,
        /// Whether the cursor is drawn into frames; always off here.
        show_cursor: bool,
    },
}

/// Failure to start a session: the OS capture subsystem rejected the
/// filter or configuration, for instance because the window closed
/// between enumeration and bind. Recoverable by scanning again.
#[derive(Debug, Clone, Copy, PartialEq, Eq, Structural)]
pub enum SessionError {
    /// The capture stream could not be opened.
    StreamUnavailable,
}

/// The window a state is bound to, if any.
pub open spec fn bound_window(s: SessionState) -> Option<u32> {
    match s {
        SessionState::Idle => None,
        SessionState::Starting { window_id } => Some(window_id),
        SessionState::Active { window_id } => Some(window_id),
    }
}

/// Commands that `start` emits from state `s`: stop whatever stream is
/// bound, if one is, then open the new one with the cursor disabled.
pub open spec fn start_commands(s: SessionState, window_id: u32, width: u32, height: u32) -> Seq<
    CaptureCommand,
> {
    let open = CaptureCommand::Open { window_id, width, height, show_cursor: false };
    match bound_window(s) {
        Some(prev) => seq![CaptureCommand::Stop { window_id: prev }, open],
        None => seq![open],
    }
}

/// Commands that `stop` emits from state `s`: nothing when idle, one stop
/// for the bound stream otherwise.
pub open spec fn stop_commands(s: SessionState) -> Seq<CaptureCommand> {
    match bound_window(s) {
        Some(prev) => seq![CaptureCommand::Stop { window_id: prev }],
        None => Seq::empty(),
    }
}

/// State after the OS answered a start request.
pub open spec fn confirm_next(s: SessionState, ok: bool) -> SessionState {
    match s {
        SessionState::Starting { window_id } => if ok {
            SessionState::Active { window_id }
        } else {
            SessionState::Idle
        },
        _ => s,
    }
}

/// How often a stop of `window_id`'s stream appears in `cmds`.
pub open spec fn count_stops(cmds: Seq<CaptureCommand>, window_id: u32) -> int
    decreases cmds.len(),
{
    if cmds.len() == 0 {
        0
    } else {
        (if cmds[0] == (CaptureCommand::Stop { window_id }) {
            1int
        } else {
            0int
        }) + count_stops(cmds.drop_first(), window_id)
    }
}

/// Owns the lifecycle of the single active capture stream.
pub struct SessionManager {
    /// Where the manager stands in the lifecycle.
    pub state: SessionState,
}

impl SessionManager {
    /// A manager with no session.
    pub fn new() -> (m: SessionManager)
        ensures
            m.state == SessionState::Idle,
    {
        SessionManager { state: SessionState::Idle }
    }

    /// Requests a stream bound to `window_id` with the frame size fixed
    /// to the window's reported size. Any stream already bound — to any
    /// window — is stopped first; its stop command precedes the open
    /// command, and a failure to perform it outside is logged there, not
    /// reported here.
    pub fn start(&mut self, window_id: u32, width: u32, height: u32) -> (cmds: Vec<CaptureCommand>)
        ensures
            final(self).state == (SessionState::Starting { window_id }),
            cmds@ == start_commands(old(self).state, window_id, width, height),
    {
        let mut cmds: Vec<CaptureCommand> = Vec::new();
        match self.state {
            SessionState::Idle => {},
            SessionState::Starting { window_id: prev } => {
                cmds.push(CaptureCommand::Stop { window_id: prev });
            },
            SessionState::Active { window_id: prev } => {
                cmds.push(CaptureCommand::Stop { window_id: prev });
            },
        }
        cmds.push(CaptureCommand::Open { window_id, width, height, show_cursor: false });
        self.state = SessionState::Starting { window_id };
        assert(cmds@ =~= start_commands(old(self).state, window_id, width, height));
        cmds
    }

    /// Records the OS's answer to the start request. On success the
    /// session is active; on rejection the manager reverts to idle and
    /// reports `StreamUnavailable`, leaving any target fields the caller
    /// set as they are.
    pub fn confirm_start(&mut self, ok: bool) -> (r: Result<(), SessionError>)
        requires
            old(self).state is Starting,
        ensures
            final(self).state == confirm_next(old(self).state, ok),
            r is Ok <==> ok,
            !ok ==> r == Err::<(), SessionError>(SessionError::StreamUnavailable),
    {
        match self.state {
            SessionState::Starting { window_id } => {
                if ok {
                    self.state = SessionState::Active { window_id };
                    Ok(())
                } else {
                    self.state = SessionState::Idle;
                    Err(SessionError::StreamUnavailable)
                }
            },
            _ => {
                Err(SessionError::StreamUnavailable)
            },
        }
    }

    /// Releases whatever stream is bound and returns to idle. Idempotent:
    /// on an idle manager this emits no command and is not an error —
    /// nothing is logged anywhere for it.
    pub fn stop(&mut self) -> (cmds: Vec<CaptureCommand>)
        ensures
            final(self).state == SessionState::Idle,
            cmds@ == stop_commands(old(self).state),
    {
        let mut cmds: Vec<CaptureCommand> = Vec::new();
        match self.state {
            SessionState::Idle => {},
            SessionState::Starting { window_id: prev } => {
                cmds.push(CaptureCommand::Stop { window_id: prev });
            },
            SessionState::Active { window_id: prev } => {
                cmds.push(CaptureCommand::Stop { window_id: prev });
            },
        }
        self.state = SessionState::Idle;
        assert(cmds@ =~= stop_commands(old(self).state));
        cmds
    }
}

/// Starting a capture for one window and then, once it is active, for a
/// different window leaves exactly one session, bound to the second
/// window once the OS confirms it; and across both starts the first
/// window's stream is stopped exactly once, by a stop command that
/// precedes the second open.
pub proof fn lemma_restart_stops_first_once(
    id1: u32,
    id2: u32,
    w1: u32,
    h1: u32,
    w2: u32,
    h2: u32,
)
    requires
        id1 != id2,
    ensures
        ({
            let first_cmds = start_commands(SessionState::Idle, id1, w1, h1);
            let second_cmds = start_commands(
                confirm_next(SessionState::Starting { window_id: id1 }, true),
                id2,
                w2,
                h2,
            );
            &&& confirm_next(SessionState::Starting { window_id: id1 }, true)
                == (SessionState::Active { window_id: id1 })
            &&& confirm_next(SessionState::Starting { window_id: id2 }, true)
                == (SessionState::Active { window_id: id2 })
            &&& count_stops(first_cmds + second_cmds, id1) == 1
            &&& second_cmds == seq![
                CaptureCommand::Stop { window_id: id1 },
                CaptureCommand::Open { window_id: id2, width: w2, height: h2, show_cursor: false },
            ]
        }),
{
    let first_cmds = start_commands(SessionState::Idle, id1, w1, h1);
    let second_cmds = start_commands(SessionState::Active { window_id: id1 }, id2, w2, h2);
    let all = first_cmds + second_cmds;
    assert(all.len() == 3);
    assert(all[0] == (CaptureCommand::Open { window_id: id1, width: w1, height: h1, show_cursor: false }));
    assert(all[1] == (CaptureCommand::Stop { window_id: id1 }));
    assert(all[2] == (CaptureCommand::Open { window_id: id2, width: w2, height: h2, show_cursor: false }));
    assert(count_stops(all.drop_first().drop_first().drop_first(), id1) == 0);
    assert(all.drop_first().drop_first()[0] == all[2]);
    assert(count_stops(all.drop_first().drop_first(), id1) == 0);
    assert(all.drop_first()[0] == all[1]);
    assert(count_stops(all.drop_first(), id1) == 1);
    assert(count_stops(all, id1) == 1);
}

} // verus!
