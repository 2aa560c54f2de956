use vstd::prelude::*;

verus! {

/// Tag of a leaf application command's class.
pub type CommandClassId = u8;

/// Tag of a leaf application command within its class.
pub type CommandId = u8;

/// The first byte of every message on the wire.
#[derive(Debug, Clone, Copy, Hash, PartialEq, Eq, Structural)]
pub enum PreambleId {
    Frame,
    Ack,
    Nack,
    Cancel,
}

pub const PREAMBLE_FRAME: u8 = 0x01;
pub const PREAMBLE_ACK: u8 = 0x06;
pub const PREAMBLE_NACK: u8 = 0x15;
pub const PREAMBLE_CANCEL: u8 = 0x18;

impl PreambleId {
    /// The byte that stands for this preamble on the wire.
    pub open spec fn spec_value(self) -> u8 {
        match self {
            PreambleId::Frame => PREAMBLE_FRAME,
            PreambleId::Ack => PREAMBLE_ACK,
            PreambleId::Nack => PREAMBLE_NACK,
            PreambleId::Cancel => PREAMBLE_CANCEL,
        }
    }

    /// The preamble that a byte stands for, if any.
    pub open spec fn spec_from_u8(value: u8) -> Option<PreambleId> {
        if value == PREAMBLE_FRAME {
            Some(PreambleId::Frame)
        } else if value == PREAMBLE_ACK {
            Some(PreambleId::Ack)
        } else if value == PREAMBLE_NACK {
            Some(PreambleId::Nack)
        } else if value == PREAMBLE_CANCEL {
            Some(PreambleId::Cancel)
        } else {
            None
        }
    }

    pub fn from_u8(value: u8) -> (r: Option<PreambleId>)
        ensures
            r == PreambleId::spec_from_u8(value),
            r matches Some(p) ==> p.spec_value() == value,
    {
        match value {
            PREAMBLE_FRAME => Some(PreambleId::Frame),
            PREAMBLE_ACK => Some(PreambleId::Ack),
            PREAMBLE_NACK => Some(PreambleId::Nack),
            PREAMBLE_CANCEL => Some(PreambleId::Cancel),
            _ => None,
        }
    }

    pub fn value(&self) -> (r: u8)
        ensures
            r == self.spec_value(),
            PreambleId::spec_from_u8(r) == Some(*self),
    {
        match self {
            PreambleId::Frame => PREAMBLE_FRAME,
            PreambleId::Ack => PREAMBLE_ACK,
            PreambleId::Nack => PREAMBLE_NACK,
            PreambleId::Cancel => PREAMBLE_CANCEL,
        }
    }
}

/// The direction byte of a frame.
#[derive(Debug, Clone, Copy, Hash, PartialEq, Eq, Structural)]
pub enum MessageTypeId {
    Request,
    Response,
}

pub const MESSAGE_TYPE_REQUEST: u8 = 0x00;
pub const MESSAGE_TYPE_RESPONSE: u8 = 0x01;

impl MessageTypeId {
    pub open spec fn spec_value(self) -> u8 {
        match self {
            MessageTypeId::Request => MESSAGE_TYPE_REQUEST,
            MessageTypeId::Response => MESSAGE_TYPE_RESPONSE,
        }
    }

    pub open spec fn spec_from_u8(value: u8) -> Option<MessageTypeId> {
        if value == MESSAGE_TYPE_REQUEST {
            Some(MessageTypeId::Request)
        } else if value == MESSAGE_TYPE_RESPONSE {
            Some(MessageTypeId::Response)
        } else {
            None
        }
    }

    pub fn from_u8(value: u8) -> (r: Option<MessageTypeId>)
        ensures
            r == MessageTypeId::spec_from_u8(value),
            r matches Some(t) ==> t.spec_value() == value,
    {
        match value {
            MESSAGE_TYPE_REQUEST => Some(MessageTypeId::Request),
            MESSAGE_TYPE_RESPONSE => Some(MessageTypeId::Response),
            _ => None,
        }
    }

    pub fn value(&self) -> (r: u8)
        ensures
            r == self.spec_value(),
            MessageTypeId::spec_from_u8(r) == Some(*self),
    {
        match self {
            MessageTypeId::Request => MESSAGE_TYPE_REQUEST,
            MessageTypeId::Response => MESSAGE_TYPE_RESPONSE,
        }
    }
}

/// The function byte of a frame.
#[derive(Debug, Clone, Copy, Hash, PartialEq, Eq, Structural)]
pub enum FunctionId {
    SendData,
}

pub const FUNCTION_SEND_DATA: u8 = 0x13;

impl FunctionId {
    pub open spec fn spec_value(self) -> u8 {
        match self {
            FunctionId::SendData => FUNCTION_SEND_DATA,
        }
    }

    pub open spec fn spec_from_u8(value: u8) -> Option<FunctionId> {
        if value == FUNCTION_SEND_DATA {
            Some(FunctionId::SendData)
        } else {
            None
        }
    }

    pub fn from_u8(value: u8) -> (r: Option<FunctionId>)
        ensures
            r == FunctionId::spec_from_u8(value),
            r matches Some(f) ==> f.spec_value() == value,
    {
        match value {
            FUNCTION_SEND_DATA => Some(FunctionId::SendData),
            _ => None,
        }
    }

    pub fn value(&self) -> (r: u8)
        ensures
            r == self.spec_value(),
            FunctionId::spec_from_u8(r) == Some(*self),
    {
        match self {
            FunctionId::SendData => FUNCTION_SEND_DATA,
        }
    }
}

} // verus!
