//! The decisions of a client's websocket session: what to send when the
//! data changes, and when to end the session.
use vstd::prelude::*;
use std::ops::ControlFlow;

verus! {

/// How many updates after the first message still carry the whole history
/// and the settings.
pub const FULL_UPDATES: u32 = 5;

/// The kind of a message received from the client.
#[derive(Debug, Clone, Copy, PartialEq, Eq, Structural)]
pub enum MessageKind {
    Text,
    Binary,
    Ping,
    Pong,
    Close,
}

/// Whether to go on after a message from the client: a close message ends
/// the session; anything else is only logged.
pub fn process_message(kind: MessageKind) -> (r: ControlFlow<(), ()>)
    ensures
        r == (if kind == MessageKind::Close {
            ControlFlow::<(), ()>::Break(())
        } else {
            ControlFlow::<(), ()>::Continue(())
        }),
{
    match kind {
        MessageKind::Close => ControlFlow::Break(()),
        _ => ControlFlow::Continue(()),
    }
}

/// What happened in a session.
#[derive(Debug, Clone, Copy, PartialEq, Eq, Structural)]
pub enum SessionEvent {
    /// The client connected.
    Connected,
    /// A message arrived.
    Received(MessageKind),
    /// Receiving failed.
    ReceiveFailed,
    /// The client went away.
    Disconnected,
    /// The polling loop published new data.
    DataChanged,
    /// Waiting for new data failed.
    DataFailed,
    /// Sending to the client failed.
    SendFailed,
}

/// What the session does next.
#[derive(Debug, Clone, Copy, PartialEq, Eq, Structural)]
pub enum SessionAction {
    /// Send the data: the whole history and the settings when `full`,
    /// otherwise the newest entry and the active alarms.
    Send { full: bool },
    /// Wait for the next event.
    Wait,
    /// End the session.
    Stop,
}

/// A client's session.
#[derive(Debug)]
pub struct ClientSession {
    /// Updates that will still be sent in full.
    pub full_updates_left: u32,
}

/// The next count of full updates and the action for `event`.
pub open spec fn session_step(full_updates_left: u32, event: SessionEvent) -> (u32, SessionAction) {
    match event {
        SessionEvent::Connected => (full_updates_left, SessionAction::Send { full: true }),
        SessionEvent::Received(kind) => if kind == MessageKind::Close {
            (full_updates_left, SessionAction::Stop)
        } else {
            (full_updates_left, SessionAction::Wait)
        },
        SessionEvent::ReceiveFailed => (full_updates_left, SessionAction::Wait),
        SessionEvent::Disconnected => (full_updates_left, SessionAction::Stop),
        SessionEvent::DataChanged => if full_updates_left != 0 {
            ((full_updates_left - 1) as u32, SessionAction::Send { full: true })
        } else {
            (0, SessionAction::Send { full: false })
        },
        SessionEvent::DataFailed => (full_updates_left, SessionAction::Wait),
        SessionEvent::SendFailed => (full_updates_left, SessionAction::Stop),
    }
}

impl ClientSession {
    /// A session that has not yet sent anything.
    pub fn new() -> (s: ClientSession)
        ensures
            s.full_updates_left == FULL_UPDATES,
    {
        ClientSession { full_updates_left: FULL_UPDATES }
    }

    /// Decides what to do on `event`.
    pub fn step(&mut self, event: SessionEvent) -> (action: SessionAction)
        ensures
            (final(self).full_updates_left, action) == session_step(old(self).full_updates_left, event),
    {
        match event {
            SessionEvent::Connected => SessionAction::Send { full: true },
            SessionEvent::Received(kind) => match process_message(kind) {
                ControlFlow::Break(()) => SessionAction::Stop,
                ControlFlow::Continue(()) => SessionAction::Wait,
            },
            SessionEvent::ReceiveFailed => SessionAction::Wait,
            SessionEvent::Disconnected => SessionAction::Stop,
            SessionEvent::DataChanged => {
                let full = self.full_updates_left != 0;
                if self.full_updates_left != 0 {
                    self.full_updates_left = self.full_updates_left - 1;
                }
                SessionAction::Send { full }
            },
            SessionEvent::DataFailed => SessionAction::Wait,
            SessionEvent::SendFailed => SessionAction::Stop,
        }
    }
}

/// The count of full updates left after `n` changes of data.
pub open spec fn full_updates_left_after(n: nat) -> u32 {
    if n >= FULL_UPDATES {
        0
    } else {
        (FULL_UPDATES - n) as u32
    }
}

/// The first message of a session is full, and so are the updates for the
/// first five changes of data; every later update is partial. Only a close
/// message, a disconnection or a failed send ends a session.
pub proof fn law_session(n: nat, event: SessionEvent, left: u32)
    ensures
        session_step(FULL_UPDATES, SessionEvent::Connected) == (
            FULL_UPDATES,
            SessionAction::Send { full: true },
        ),
        session_step(full_updates_left_after(n), SessionEvent::DataChanged) == (
            full_updates_left_after(n + 1),
            SessionAction::Send { full: n < FULL_UPDATES },
        ),
        session_step(left, event).1 == SessionAction::Stop <==> (event == SessionEvent::Disconnected
            || event == SessionEvent::SendFailed || event == SessionEvent::Received(MessageKind::Close)),
        session_step(left, event).0 <= left,
{
}

/// Only a change of data uses up a full update: every other event leaves the
/// count as it is, and a change of data lowers it by one until none is left.
/// A message from the client other than a close only waits.
pub proof fn law_session_count(left: u32, event: SessionEvent)
    ensures
        event != SessionEvent::DataChanged ==> session_step(left, event).0 == left,
        session_step(left, SessionEvent::DataChanged).0 == (if left > 0 {
            left - 1
        } else {
            0
        }),
        session_step(left, SessionEvent::DataChanged).1 == (SessionAction::Send { full: left > 0 }),
        forall|k: MessageKind|
            k != MessageKind::Close ==> #[trigger] session_step(left, SessionEvent::Received(k)) == (
                left,
                SessionAction::Wait,
            ),
{
}

} // verus!
