//! The handle of a node: its configuration and the sending end of its
//! outbound command queue.

use crate::model::OutgoingEvent;
use futures_channel::mpsc::UnboundedSender;
use vstd::prelude::*;

verus! {

/// The sending end of an unbounded queue of the `futures-channel` crate.
/// Nothing inside it is visible to the proofs.
#[verifier::external_type_specification]
#[verifier::external_body]
#[verifier::reject_recursive_types(T)]
pub struct ExUnboundedSender<T>(UnboundedSender<T>);

/// `Clone::clone` of an `UnboundedSender`: another sending end of the same
/// queue. Nothing is claimed of it.
pub assume_specification<T>[ <UnboundedSender<T> as Clone>::clone ](
    sender: &UnboundedSender<T>,
) -> UnboundedSender<T>;

/// The address of a node: the bits of its IPv6 address (an IPv4 address in
/// its IPv4-mapped form) and its port.
pub type Address = (u128, u16);

/// How a node is asked to keep a session alive across a reconnection.
#[derive(Clone, Copy, Debug, PartialEq, Eq, Structural)]
pub struct Resume {
    /// The seconds for which the node keeps the session after the
    /// connection broke.
    pub timeout: u64,
}

impl Resume {
    /// Ask the node to keep the session for `timeout` seconds.
    pub fn new(timeout: u64) -> (r: Self)
        ensures
            r == (Resume { timeout }),
    {
        Resume { timeout }
    }
}

/// The configuration that a node is connected with.
#[derive(Clone, Debug, PartialEq, Eq)]
pub struct NodeConfig {
    /// The bits of the node's IPv6 address; an IPv4 address is held in its
    /// IPv4-mapped form.
    pub ip: u128,
    /// The port of the node.
    pub port: u16,
    /// The credential that the handshake presents.
    pub authorization: String,
    /// Whether and how sessions are resumed.
    pub resume: Option<Resume>,
    /// The identity of the caller.
    pub user_id: u64,
}

/// What a node handle is to the contracts: its configuration, the
/// credential as a sequence of characters.
pub struct NodeView {
    pub address: Address,
    pub authorization: Seq<char>,
    pub resume: Option<Resume>,
    pub user_id: u64,
}

impl View for NodeConfig {
    type V = NodeView;

    open spec fn view(&self) -> NodeView {
        NodeView {
            address: (self.ip, self.port),
            authorization: self.authorization@,
            resume: self.resume,
            user_id: self.user_id,
        }
    }
}

/// What a handshake presents to a node.
#[derive(Clone, Debug, PartialEq, Eq)]
pub struct Handshake {
    /// The credential.
    pub authorization: String,
    /// The identity of the caller.
    pub user_id: u64,
    /// The seconds for which the node is asked to keep the session after a
    /// break, where resuming is enabled.
    pub resume_timeout: Option<u64>,
    /// The token of the session that the node is asked to restore.
    pub resume_key: Option<String>,
}

/// A command that could not be put on a node's outbound queue.
#[derive(Clone, Debug, PartialEq)]
pub struct SendError {
    /// The command that was rejected.
    pub event: OutgoingEvent,
}

impl SendError {
    /// Take the rejected command back.
    pub fn into_inner(self) -> (r: OutgoingEvent)
        ensures
            r == self.event,
    {
        self.event
    }
}

/// A handle of a node: where it is and how to queue commands for it.
#[derive(Clone, Debug)]
pub struct Node {
    config: NodeConfig,
    sender: UnboundedSender<OutgoingEvent>,
}

impl View for Node {
    type V = NodeView;

    closed spec fn view(&self) -> NodeView {
        self.config@
    }
}

/// Calls `UnboundedSender::unbounded_send` and, where the send fails, takes
/// the message back out of the error with `TrySendError::into_inner`.
///
/// The send fails when the receiving end is closed or gone; the error then
/// holds the very message that was handed in. Whether it fails is not a
/// matter of the arguments. (The crate aborts the send with a panic only when
/// the queue already holds as many messages as its counter can count.)
#[verifier::external_body]
fn enqueue(sender: &UnboundedSender<OutgoingEvent>, event: OutgoingEvent) -> (r: Result<
    (),
    OutgoingEvent,
>)
    ensures
        r matches Err(rejected) ==> rejected == event,
{
    match sender.unbounded_send(event) {
        Ok(()) => Ok(()),
        Err(e) => Err(e.into_inner()),
    }
}

impl Node {
    /// A handle of the node configured by `config`, whose outbound queue is
    /// fed through `sender`.
    pub fn new(config: NodeConfig, sender: UnboundedSender<OutgoingEvent>) -> (r: Self)
        ensures
            r@ == config@,
    {
        Node { config, sender }
    }

    /// The configuration that the node was connected with.
    pub fn config(&self) -> (r: &NodeConfig)
        ensures
            r@ == self@,
    {
        &self.config
    }

    /// Another handle of the same node, feeding the same outbound queue.
    pub fn duplicate(&self) -> (r: Self)
        ensures
            r@ == self@,
    {
        Node {
            config: NodeConfig {
                ip: self.config.ip,
                port: self.config.port,
                authorization: self.config.authorization.clone(),
                resume: self.config.resume,
                user_id: self.config.user_id,
            },
            sender: self.sender.clone(),
        }
    }

    /// What the handshake with the node presents: the credential and the
    /// caller's identity, the resume timeout where resuming is configured,
    /// and then also the token of the earlier session, if there is one.
    pub fn handshake(&self, token: Option<String>) -> (r: Handshake)
        ensures
            r.authorization@ == self@.authorization,
            r.user_id == self@.user_id,
            r.resume_timeout == (match self@.resume {
                Some(resume) => Some(resume.timeout),
                None => None,
            }),
            r.resume_key == (if self@.resume is Some {
                token
            } else {
                None
            }),
    {
        match self.config.resume {
            Some(resume) => Handshake {
                authorization: self.config.authorization.clone(),
                user_id: self.config.user_id,
                resume_timeout: Some(resume.timeout),
                resume_key: token,
            },
            None => Handshake {
                authorization: self.config.authorization.clone(),
                user_id: self.config.user_id,
                resume_timeout: None,
                resume_key: None,
            },
        }
    }

    /// The address of the node.
    pub fn address(&self) -> (r: Address)
        ensures
            r == self@.address,
    {
        (self.config.ip, self.config.port)
    }

    /// What becomes of an attempt to queue `event`: success, or an error
    /// that carries the command.
    pub open spec fn send_result(outcome: Result<(), OutgoingEvent>) -> Result<(), SendError> {
        match outcome {
            Ok(()) => Ok(()),
            Err(event) => Err(SendError { event }),
        }
    }

    /// Turn the outcome of queueing a command into the result that the
    /// caller of [`Node::send`] sees.
    pub fn sent(outcome: Result<(), OutgoingEvent>) -> (r: Result<(), SendError>)
        ensures
            r == Self::send_result(outcome),
    {
        match outcome {
            Ok(()) => Ok(()),
            Err(event) => Err(SendError { event }),
        }
    }

    /// Put a command on the node's outbound queue without waiting.
    ///
    /// Fails once the duty that drains the queue has ended; the error then
    /// carries `event` itself, so that the caller can send it elsewhere.
    pub fn send(&self, event: OutgoingEvent) -> (r: Result<(), SendError>)
        ensures
            r matches Err(e) ==> e.event == event,
    {
        Node::sent(enqueue(&self.sender, event))
    }
}

} // verus!
