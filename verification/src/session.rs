//! The session loop's state machine.
//!
//! Each tick the loop drains the output queue to the terminal, reads the
//! connection state, and polls briefly for one local input event.  This
//! module decides what a tick does with what it saw: it is the only place a
//! run-ending decision is made.  A lost connection or a quit key ends the
//! run; a clear combination clears both screens; a resize is reported to
//! the control endpoint; everything else that encodes to bytes is enqueued
//! for the outbound task.

use vstd::prelude::*;

use crate::encoder::{encode, spec_encode};
use crate::keys::{Action, ActionModel, EventModel, InputEvent};

verus! {

/// Whether the duplex channel is still alive.  Written to `Disconnected` by
/// whichever side of the pipeline fails first; once lost it never comes
/// back within a run.
#[derive(Clone, Copy, PartialEq, Eq, Structural, Debug)]
pub enum ConnectionState {
    Connected,
    Disconnected,
}

/// Where the session loop stands.  It starts `Running`; `Quitting` is
/// terminal and cancels the pipeline.
#[derive(Clone, Copy, PartialEq, Eq, Structural, Debug)]
pub enum SessionPhase {
    Running,
    Quitting,
}

/// What one tick asks the surrounding process to do, besides the
/// unconditional drain of the output queue.
#[derive(Clone, PartialEq, Eq, Debug)]
pub enum TickDirective {
    /// Hand this text to the input queue for the outbound task.
    Enqueue(String),
    /// Clear the local screen now and fire the remote clear request.
    ClearBoth,
    /// Fire the remote resize request for this size, without waiting.
    Resize { cols: u16, rows: u16 },
    /// Nothing beyond the drain.
    Nothing,
}

/// Mathematical model of a [`TickDirective`].
pub enum DirectiveModel {
    Enqueue(Seq<char>),
    ClearBoth,
    Resize { cols: u16, rows: u16 },
    Nothing,
}

impl View for TickDirective {
    type V = DirectiveModel;

    open spec fn view(&self) -> DirectiveModel {
        match self {
            TickDirective::Enqueue(s) => DirectiveModel::Enqueue(s@),
            TickDirective::ClearBoth => DirectiveModel::ClearBoth,
            TickDirective::Resize { cols, rows } => DirectiveModel::Resize {
                cols: *cols,
                rows: *rows,
            },
            TickDirective::Nothing => DirectiveModel::Nothing,
        }
    }
}

/// What one tick does, given the connection state and the polled event (if
/// any arrived within the tick's timeout).  A tick begins in `Running`; a
/// lost connection ends the run before any input is looked at.
pub open spec fn spec_session_step(conn: ConnectionState, polled: Option<EventModel>) -> (
    SessionPhase,
    DirectiveModel,
) {
    if conn == ConnectionState::Disconnected {
        (SessionPhase::Quitting, DirectiveModel::Nothing)
    } else {
        match polled {
            None => (SessionPhase::Running, DirectiveModel::Nothing),
            Some(EventModel::Resize(cols, rows)) => (
                SessionPhase::Running,
                DirectiveModel::Resize { cols, rows },
            ),
            Some(ev) => match spec_encode(ev) {
                ActionModel::Quit => (SessionPhase::Quitting, DirectiveModel::Nothing),
                ActionModel::ClearScreen => (SessionPhase::Running, DirectiveModel::ClearBoth),
                ActionModel::Send(s) => (SessionPhase::Running, DirectiveModel::Enqueue(s)),
                ActionModel::Ignore => (SessionPhase::Running, DirectiveModel::Nothing),
            },
        }
    }
}

/// Runs one tick's decision.
pub fn session_step(conn: ConnectionState, polled: Option<InputEvent>) -> (r: (
    SessionPhase,
    TickDirective,
))
    ensures
        (r.0, r.1@) == spec_session_step(
            conn,
            match polled {
                Some(ev) => Some(ev@),
                None => None,
            },
        ),
{
    if matches!(conn, ConnectionState::Disconnected) {
        return (SessionPhase::Quitting, TickDirective::Nothing);
    }
    match polled {
        None => (SessionPhase::Running, TickDirective::Nothing),
        Some(InputEvent::Resize(cols, rows)) => (
            SessionPhase::Running,
            TickDirective::Resize { cols, rows },
        ),
        Some(ev) => match encode(&ev) {
            Action::Quit => (SessionPhase::Quitting, TickDirective::Nothing),
            Action::ClearScreen => (SessionPhase::Running, TickDirective::ClearBoth),
            Action::Send(s) => (SessionPhase::Running, TickDirective::Enqueue(s)),
            Action::Ignore => (SessionPhase::Running, TickDirective::Nothing),
        },
    }
}

/// Law: a tick that sees the connection lost quits at once and takes no
/// further input, whatever was polled.
pub proof fn lemma_disconnect_quits(polled: Option<EventModel>)
    ensures
        spec_session_step(ConnectionState::Disconnected, polled) == (
            SessionPhase::Quitting,
            DirectiveModel::Nothing,
        ),
{
}

/// Law: non-empty pasted text is enqueued exactly as pasted; no per-key
/// table is applied to it.
pub proof fn lemma_paste_enqueued_verbatim(t: Seq<char>)
    requires
        t.len() > 0,
    ensures
        spec_session_step(ConnectionState::Connected, Some(EventModel::Paste(t))) == (
            SessionPhase::Running,
            DirectiveModel::Enqueue(t),
        ),
{
}

/// Law: a resize event is routed to the control endpoint with its size and
/// never enters the input stream or ends the run.
pub proof fn lemma_resize_routed(cols: u16, rows: u16)
    ensures
        spec_session_step(ConnectionState::Connected, Some(EventModel::Resize(cols, rows))) == (
            SessionPhase::Running,
            DirectiveModel::Resize { cols, rows },
        ),
{
}

} // verus!
