//! The life cycle of one node connection, as a function from the state and
//! what happened to the next state and what to do.
//!
//! The transport itself is driven from outside: whoever owns the socket
//! reports each event to [`Connection::step`] and carries out the action that
//! comes back.

use vstd::prelude::*;

verus! {

/// Where a connection stands.
#[derive(Clone, Copy, Debug, PartialEq, Eq, Structural)]
pub enum ConnectionState {
    /// The first handshake is under way.
    Connecting,
    /// The handshake succeeded; commands are written and frames are read.
    Connected,
    /// The transport failed.
    Disconnected,
    /// A handshake is retried after a failure.
    Reconnecting,
    /// The connection was removed or given up; nothing happens any more.
    Closed,
}

/// What happened to a connection.
#[derive(Clone, Copy, Debug, PartialEq, Eq, Structural)]
pub enum ConnectionEvent {
    /// The node accepted the handshake.
    HandshakeSucceeded,
    /// The node refused the handshake, or the transport failed during it.
    HandshakeFailed,
    /// The transport failed while the connection was in use.
    TransportFailed,
    /// The commands that were waiting when the transport failed are gone.
    QueueDiscarded,
    /// A command came off the outbound queue.
    CommandReady,
    /// A frame arrived that holds an event.
    FrameReceived,
    /// A frame arrived that holds no event that is known.
    FrameMalformed,
    /// The node was removed from the registry.
    Removed,
}

/// What the owner of the transport has to do next.
#[derive(Clone, Copy, Debug, PartialEq, Eq, Structural)]
pub enum ConnectionAction {
    /// Nothing.
    Nothing,
    /// Start reading frames and writing commands.
    StartDuties,
    /// Write the command to the transport.
    WriteCommand,
    /// Drop the command without writing it.
    DropCommand,
    /// Take the event into the cached state, then hand it on to the
    /// subscriber.
    ProcessFrame,
    /// Report the frame and go on reading.
    DiscardFrame,
    /// Drop every command that is waiting in the outbound queue, then report
    /// [`ConnectionEvent::QueueDiscarded`].
    DiscardQueue,
    /// Wait as the pacing policy says, then perform the handshake; `resume`
    /// says whether to ask the node to restore the earlier session.
    Handshake { resume: bool },
    /// Stop both duties and release the transport.
    Shutdown,
}

/// Why a connection to a node could not be made.
#[derive(Clone, Copy, Debug, PartialEq, Eq, Structural)]
pub enum ConnectionError {
    /// The node refused the handshake.
    Handshake,
    /// The transport failed before the handshake was through.
    Transport,
}

impl ConnectionError {
    /// The error in words.
    pub fn message(&self) -> (r: &'static str)
        ensures
            self is Handshake ==> r@ == "the node refused the handshake"@,
            self is Transport ==> r@ == "the transport failed during the handshake"@,
    {
        match self {
            ConnectionError::Handshake => "the node refused the handshake",
            ConnectionError::Transport => "the transport failed during the handshake",
        }
    }
}

/// The state of one connection and the settings that its transitions read.
#[derive(Clone, Copy, Debug, PartialEq, Eq, Structural)]
pub struct Connection {
    /// Where the connection stands.
    pub state: ConnectionState,
    /// Whether a failed connection is opened again.
    pub reconnect: bool,
    /// Whether a resume token was negotiated with the node.
    pub has_resume_token: bool,
}

impl Connection {
    /// The state after `event`.
    pub open spec fn next_state(self, event: ConnectionEvent) -> ConnectionState {
        match (self.state, event) {
            (ConnectionState::Closed, _) => ConnectionState::Closed,
            (_, ConnectionEvent::Removed) => ConnectionState::Closed,
            (ConnectionState::Connecting, ConnectionEvent::HandshakeSucceeded) => {
                ConnectionState::Connected
            },
            (ConnectionState::Connecting, ConnectionEvent::HandshakeFailed) => {
                ConnectionState::Closed
            },
            (ConnectionState::Connecting, ConnectionEvent::TransportFailed) => {
                ConnectionState::Closed
            },
            (ConnectionState::Connected, ConnectionEvent::TransportFailed) => {
                ConnectionState::Disconnected
            },
            (ConnectionState::Disconnected, ConnectionEvent::QueueDiscarded) => {
                if self.reconnect {
                    ConnectionState::Reconnecting
                } else {
                    ConnectionState::Closed
                }
            },
            (ConnectionState::Reconnecting, ConnectionEvent::HandshakeSucceeded) => {
                ConnectionState::Connected
            },
            (state, _) => state,
        }
    }

    /// What is to be done on `event`.
    pub open spec fn action_on(self, event: ConnectionEvent) -> ConnectionAction {
        match (self.state, event) {
            (ConnectionState::Closed, _) => ConnectionAction::Nothing,
            (_, ConnectionEvent::Removed) => ConnectionAction::Shutdown,
            (ConnectionState::Connected, ConnectionEvent::CommandReady) => {
                ConnectionAction::WriteCommand
            },
            (_, ConnectionEvent::CommandReady) => ConnectionAction::DropCommand,
            (ConnectionState::Connected, ConnectionEvent::FrameReceived) => {
                ConnectionAction::ProcessFrame
            },
            (ConnectionState::Connected, ConnectionEvent::FrameMalformed) => {
                ConnectionAction::DiscardFrame
            },
            (ConnectionState::Connecting, ConnectionEvent::HandshakeSucceeded) => {
                ConnectionAction::StartDuties
            },
            (ConnectionState::Connecting, ConnectionEvent::HandshakeFailed) => {
                ConnectionAction::Shutdown
            },
            (ConnectionState::Connecting, ConnectionEvent::TransportFailed) => {
                ConnectionAction::Shutdown
            },
            (ConnectionState::Connected, ConnectionEvent::TransportFailed) => {
                ConnectionAction::DiscardQueue
            },
            (ConnectionState::Disconnected, ConnectionEvent::QueueDiscarded) => {
                if self.reconnect {
                    ConnectionAction::Handshake { resume: self.has_resume_token }
                } else {
                    ConnectionAction::Shutdown
                }
            },
            (ConnectionState::Reconnecting, ConnectionEvent::HandshakeSucceeded) => {
                ConnectionAction::StartDuties
            },
            (ConnectionState::Reconnecting, ConnectionEvent::HandshakeFailed) => {
                ConnectionAction::Handshake { resume: self.has_resume_token }
            },
            (ConnectionState::Reconnecting, ConnectionEvent::TransportFailed) => {
                ConnectionAction::Handshake { resume: self.has_resume_token }
            },
            _ => ConnectionAction::Nothing,
        }
    }

    /// A connection whose first handshake is about to be made.
    pub fn new(reconnect: bool) -> (r: Self)
        ensures
            r == (Connection {
                state: ConnectionState::Connecting,
                reconnect,
                has_resume_token: false,
            }),
    {
        Connection { state: ConnectionState::Connecting, reconnect, has_resume_token: false }
    }

    /// Record whether the node handed out a resume token.
    pub fn set_resume_token(&mut self, present: bool)
        ensures
            *final(self) == (Connection { has_resume_token: present, ..*old(self) }),
    {
        self.has_resume_token = present;
    }

    /// Where the connection stands.
    pub fn state(&self) -> (r: ConnectionState)
        ensures
            r == self.state,
    {
        self.state
    }

    /// Take `event` in: move to the next state and say what to do.
    pub fn step(&mut self, event: ConnectionEvent) -> (action: ConnectionAction)
        ensures
            final(self).state == old(self).next_state(event),
            final(self).reconnect == old(self).reconnect,
            final(self).has_resume_token == old(self).has_resume_token,
            action == old(self).action_on(event),
    {
        let resume = self.has_resume_token;
        match self.state {
            ConnectionState::Closed => ConnectionAction::Nothing,
            ConnectionState::Connecting => match event {
                ConnectionEvent::Removed => {
                    self.state = ConnectionState::Closed;
                    ConnectionAction::Shutdown
                },
                ConnectionEvent::CommandReady => ConnectionAction::DropCommand,
                ConnectionEvent::HandshakeSucceeded => {
                    self.state = ConnectionState::Connected;
                    ConnectionAction::StartDuties
                },
                ConnectionEvent::HandshakeFailed | ConnectionEvent::TransportFailed => {
                    self.state = ConnectionState::Closed;
                    ConnectionAction::Shutdown
                },
                _ => ConnectionAction::Nothing,
            },
            ConnectionState::Connected => match event {
                ConnectionEvent::Removed => {
                    self.state = ConnectionState::Closed;
                    ConnectionAction::Shutdown
                },
                ConnectionEvent::CommandReady => ConnectionAction::WriteCommand,
                ConnectionEvent::FrameReceived => ConnectionAction::ProcessFrame,
                ConnectionEvent::FrameMalformed => ConnectionAction::DiscardFrame,
                ConnectionEvent::TransportFailed => {
                    self.state = ConnectionState::Disconnected;
                    ConnectionAction::DiscardQueue
                },
                _ => ConnectionAction::Nothing,
            },
            ConnectionState::Disconnected => match event {
                ConnectionEvent::Removed => {
                    self.state = ConnectionState::Closed;
                    ConnectionAction::Shutdown
                },
                ConnectionEvent::CommandReady => ConnectionAction::DropCommand,
                ConnectionEvent::QueueDiscarded => {
                    if self.reconnect {
                        self.state = ConnectionState::Reconnecting;
                        ConnectionAction::Handshake { resume }
                    } else {
                        self.state = ConnectionState::Closed;
                        ConnectionAction::Shutdown
                    }
                },
                _ => ConnectionAction::Nothing,
            },
            ConnectionState::Reconnecting => match event {
                ConnectionEvent::Removed => {
                    self.state = ConnectionState::Closed;
                    ConnectionAction::Shutdown
                },
                ConnectionEvent::CommandReady => ConnectionAction::DropCommand,
                ConnectionEvent::HandshakeSucceeded => {
                    self.state = ConnectionState::Connected;
                    ConnectionAction::StartDuties
                },
                ConnectionEvent::HandshakeFailed | ConnectionEvent::TransportFailed => {
                    ConnectionAction::Handshake { resume }
                },
                _ => ConnectionAction::Nothing,
            },
        }
    }
}

/// The connection after each event of `events` in turn.
pub open spec fn after_events(c: Connection, events: Seq<ConnectionEvent>) -> Connection
    decreases events.len(),
{
    if events.len() == 0 {
        c
    } else {
        let before = after_events(c, events.drop_last());
        Connection { state: before.next_state(events.last()), ..before }
    }
}

/// Whether the life cycle lets a connection go from `from` to `to` in one
/// step: it may stay where it is, be closed, become connected from
/// connecting or reconnecting, become disconnected from connected, or start
/// reconnecting once disconnected.
pub open spec fn may_follow(from: ConnectionState, to: ConnectionState) -> bool {
    ||| to == from
    ||| to == ConnectionState::Closed
    ||| from == ConnectionState::Connecting && to == ConnectionState::Connected
    ||| from == ConnectionState::Connected && to == ConnectionState::Disconnected
    ||| from == ConnectionState::Disconnected && to == ConnectionState::Reconnecting
    ||| from == ConnectionState::Reconnecting && to == ConnectionState::Connected
}

/// Whatever happens, a connection moves along the life cycle only.
pub proof fn steps_follow_the_life_cycle(c: Connection, event: ConnectionEvent)
    ensures
        may_follow(c.state, c.next_state(event)),
{
}

/// A command is written only while the connection is connected; in every
/// other state it is dropped or ignored.
pub proof fn command_written_only_when_connected(c: Connection)
    ensures
        c.action_on(ConnectionEvent::CommandReady) == ConnectionAction::WriteCommand
            <==> c.state == ConnectionState::Connected,
{
}

/// When the transport of a connected node fails, the commands that are still
/// waiting are discarded, and until a handshake has succeeded again, whatever
/// else happens, no command is written: one that was waiting at the failure
/// is never delivered after the reconnection.
pub proof fn unsent_commands_are_dropped_on_failure(c: Connection, events: Seq<ConnectionEvent>)
    requires
        c.state == ConnectionState::Connected,
        forall|i: int| 0 <= i < events.len() ==> events[i] != ConnectionEvent::HandshakeSucceeded,
    ensures
        c.action_on(ConnectionEvent::TransportFailed) == ConnectionAction::DiscardQueue,
        c.next_state(ConnectionEvent::TransportFailed) == ConnectionState::Disconnected,
        after_events(
            Connection { state: ConnectionState::Disconnected, ..c },
            events,
        ).state != ConnectionState::Connected,
        after_events(Connection { state: ConnectionState::Disconnected, ..c }, events).action_on(
            ConnectionEvent::CommandReady,
        ) != ConnectionAction::WriteCommand,
    decreases events.len(),
{
    let d = Connection { state: ConnectionState::Disconnected, ..c };
    if events.len() > 0 {
        let shorter = events.drop_last();
        assert forall|i: int| 0 <= i < shorter.len() implies shorter[i]
            != ConnectionEvent::HandshakeSucceeded by {
            assert(shorter[i] == events[i]);
        }
        unsent_commands_are_dropped_on_failure(c, shorter);
        assert(events.last() == events[events.len() - 1]);
    }
}

/// A frame, malformed or not, never changes where the connection stands,
/// and a malformed one is never taken into the cached state.
pub proof fn frames_keep_the_state(c: Connection)
    ensures
        c.next_state(ConnectionEvent::FrameReceived) == c.state,
        c.next_state(ConnectionEvent::FrameMalformed) == c.state,
        c.action_on(ConnectionEvent::FrameMalformed) != ConnectionAction::ProcessFrame,
        c.action_on(ConnectionEvent::FrameMalformed) != ConnectionAction::Shutdown,
{
}

/// Once closed, a connection stays closed and asks for nothing.
pub proof fn closed_is_final(c: Connection, event: ConnectionEvent)
    requires
        c.state == ConnectionState::Closed,
    ensures
        c.next_state(event) == ConnectionState::Closed,
        c.action_on(event) == ConnectionAction::Nothing,
{
}

/// Removal closes a connection from every state.
pub proof fn removal_closes(c: Connection)
    ensures
        c.next_state(ConnectionEvent::Removed) == ConnectionState::Closed,
{
}

} // verus!
