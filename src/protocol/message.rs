//! The messages exchanged with the controller: control bytes and frames.

pub mod lemmas;
pub mod serialization;

use vstd::prelude::*;
use crate::common::NodeId;
use crate::protocol::bits::{FunctionId, MessageTypeId, PreambleId};
use crate::protocol::command::Command;

pub use crate::protocol::message::serialization::MessageSerializer;

verus! {

/// The packet options that a `SendData` carries unless told otherwise.
pub const DEFAULT_PACKET_OPTIONS: u8 = 0x05;

/// Positive acknowledgement.
#[derive(Debug, Clone, Copy, PartialEq, Eq, Structural)]
pub struct Ack {}

impl Ack {
    pub fn new() -> (r: Ack) {
        Ack {}
    }
}

/// Negative acknowledgement.
#[derive(Debug, Clone, Copy, PartialEq, Eq, Structural)]
pub struct Nack {}

impl Nack {
    pub fn new() -> (r: Nack) {
        Nack {}
    }
}

/// The peer dropped the frame.
#[derive(Debug, Clone, Copy, PartialEq, Eq, Structural)]
pub struct Cancel {}

impl Cancel {
    pub fn new() -> (r: Cancel) {
        Cancel {}
    }
}

/// Asks the controller to send `command` to node `destination`.
#[derive(Debug, Clone, Copy, PartialEq, Eq, Structural)]
pub struct SendData {
    pub destination: NodeId,
    pub command: Command,
    pub callback_id: u8,
    pub packet_options: u8,
}

impl SendData {
    pub fn new(destination: NodeId, command: Command, callback_id: u8) -> (r: SendData)
        ensures
            r == (SendData {
                destination,
                command,
                callback_id,
                packet_options: DEFAULT_PACKET_OPTIONS,
            }),
    {
        SendData::with_options(destination, command, callback_id, DEFAULT_PACKET_OPTIONS)
    }

    pub fn with_options(
        destination: NodeId,
        command: Command,
        callback_id: u8,
        packet_options: u8,
    ) -> (r: SendData)
        ensures
            r == (SendData { destination, command, callback_id, packet_options }),
    {
        SendData { destination, command, callback_id, packet_options }
    }

    pub fn destination(&self) -> (r: NodeId)
        ensures
            r == self.destination,
    {
        self.destination
    }

    pub fn command(&self) -> (r: Command)
        ensures
            r == self.command,
    {
        self.command
    }

    pub fn callback_id(&self) -> (r: u8)
        ensures
            r == self.callback_id,
    {
        self.callback_id
    }

    pub fn packet_options(&self) -> (r: u8)
        ensures
            r == self.packet_options,
    {
        self.packet_options
    }
}

/// The controller's answer to a `SendData`: the frame left the controller.
#[derive(Debug, Clone, Copy, PartialEq, Eq, Structural)]
pub struct MessageTransmitted {
    pub flags: u8,
}

impl MessageTransmitted {
    pub fn new(flags: u8) -> (r: MessageTransmitted)
        ensures
            r.flags == flags,
    {
        MessageTransmitted { flags }
    }

    pub fn flags(&self) -> (r: u8)
        ensures
            r == self.flags,
    {
        self.flags
    }
}

/// The controller's later report on a `SendData`, tagged with its callback id.
#[derive(Debug, Clone, Copy, PartialEq, Eq, Structural)]
pub struct MessageReceived {
    pub callback_id: u8,
    pub flags: u8,
}

impl MessageReceived {
    pub fn new(callback_id: u8, flags: u8) -> (r: MessageReceived)
        ensures
            r.callback_id == callback_id,
            r.flags == flags,
    {
        MessageReceived { callback_id, flags }
    }

    pub fn callback_id(&self) -> (r: u8)
        ensures
            r == self.callback_id,
    {
        self.callback_id
    }

    pub fn flags(&self) -> (r: u8)
        ensures
            r == self.flags,
    {
        self.flags
    }
}

/// Every kind of message.
#[derive(Debug, Clone, Copy, PartialEq, Eq, Structural)]
pub enum Message {
    Ack(Ack),
    Nack(Nack),
    Cancel(Cancel),
    SendData(SendData),
    MessageTransmitted(MessageTransmitted),
    MessageReceived(MessageReceived),
}

impl Message {
    pub open spec fn spec_preamble_id(self) -> PreambleId {
        match self {
            Message::Ack(_) => PreambleId::Ack,
            Message::Nack(_) => PreambleId::Nack,
            Message::Cancel(_) => PreambleId::Cancel,
            _ => PreambleId::Frame,
        }
    }

    /// Direction and function of a framed message.
    pub open spec fn spec_frame_key(self) -> (MessageTypeId, FunctionId) {
        match self {
            Message::MessageTransmitted(_) => (MessageTypeId::Response, FunctionId::SendData),
            _ => (MessageTypeId::Request, FunctionId::SendData),
        }
    }

    pub fn preamble_id(&self) -> (r: PreambleId)
        ensures
            r == self.spec_preamble_id(),
    {
        match self {
            Message::Ack(_) => PreambleId::Ack,
            Message::Nack(_) => PreambleId::Nack,
            Message::Cancel(_) => PreambleId::Cancel,
            _ => PreambleId::Frame,
        }
    }

    /// Direction and function of a framed message; `None` for a control byte.
    pub fn frame_key(&self) -> (r: Option<(MessageTypeId, FunctionId)>)
        ensures
            r == (if self.spec_preamble_id() == PreambleId::Frame {
                Some(self.spec_frame_key())
            } else {
                None
            }),
    {
        match self {
            Message::Ack(_) | Message::Nack(_) | Message::Cancel(_) => None,
            Message::MessageTransmitted(_) => Some((MessageTypeId::Response, FunctionId::SendData)),
            _ => Some((MessageTypeId::Request, FunctionId::SendData)),
        }
    }
}

} // verus!
