//! Application commands, keyed on the wire by (class, command id).

pub mod basic;

use vstd::prelude::*;
use crate::common::{Error, ErrorKind, fail};
use crate::protocol::bits::{CommandClassId, CommandId};
use crate::protocol::command::basic::{
    GetValue, GetValueSerializer, SetValue, SetValueSerializer, COMMAND_CLASS_ID, GET_VALUE_ID,
    SET_VALUE_ID, get_value_from_body, set_value_from_body,
};

verus! {

/// An application command carried inside a `SendData` frame.
#[derive(Debug, Clone, Copy, PartialEq, Eq, Structural)]
pub enum Command {
    SetValue(SetValue),
    GetValue(GetValue),
}

impl Command {
    pub open spec fn spec_key(self) -> (CommandClassId, CommandId) {
        match self {
            Command::SetValue(_) => (COMMAND_CLASS_ID, SET_VALUE_ID),
            Command::GetValue(_) => (COMMAND_CLASS_ID, GET_VALUE_ID),
        }
    }

    pub fn command_class_id(&self) -> (r: CommandClassId)
        ensures
            r == self.spec_key().0,
    {
        COMMAND_CLASS_ID
    }

    pub fn command_id(&self) -> (r: CommandId)
        ensures
            r == self.spec_key().1,
    {
        match self {
            Command::SetValue(_) => SET_VALUE_ID,
            Command::GetValue(_) => GET_VALUE_ID,
        }
    }
}

/// The body bytes of a command, after its key.
pub open spec fn command_body(c: Command) -> Seq<u8> {
    match c {
        Command::SetValue(s) => seq![s.value],
        Command::GetValue(_) => Seq::empty(),
    }
}

/// A command on the wire: class, command id, then the body.
pub open spec fn command_bytes(c: Command) -> Seq<u8> {
    seq![c.spec_key().0, c.spec_key().1] + command_body(c)
}

/// What decoding `bytes` as a command gives.
pub open spec fn decode_command(bytes: Seq<u8>) -> Result<Command, Error> {
    if bytes.len() < 2 {
        fail(ErrorKind::ShortRead)
    } else if bytes[0] == COMMAND_CLASS_ID && bytes[1] == SET_VALUE_ID {
        set_value_from_body(bytes.subrange(2, bytes.len() as int))
    } else if bytes[0] == COMMAND_CLASS_ID && bytes[1] == GET_VALUE_ID {
        get_value_from_body(bytes.subrange(2, bytes.len() as int))
    } else {
        fail(ErrorKind::Protocol)
    }
}

/// Encodes and decodes the registered commands.
pub struct CommandSerializer {}

impl CommandSerializer {
    pub fn new() -> (r: CommandSerializer) {
        CommandSerializer {}
    }

    /// Appends `command` to `buffer`. Every command has a registered encoding.
    pub fn serialize(&self, command: &Command, buffer: &mut Vec<u8>) -> (r: Result<(), Error>)
        ensures
            r is Ok,
            final(buffer)@ == old(buffer)@ + command_bytes(*command),
    {
        buffer.push(command.command_class_id());
        buffer.push(command.command_id());
        match command {
            Command::SetValue(s) => SetValueSerializer.serialize(s, buffer),
            Command::GetValue(g) => GetValueSerializer.serialize(g, buffer),
        }
        proof {
            assert(buffer@ =~= old(buffer)@ + command_bytes(*command));
        }
        Ok(())
    }

    pub fn deserialize(&self, buffer: &[u8]) -> (r: Result<Command, Error>)
        ensures
            r == decode_command(buffer@),
    {
        if buffer.len() < 2 {
            return Err(Error::new(ErrorKind::ShortRead));
        }
        let class_id = buffer[0];
        let command_id = buffer[1];
        let body = vstd::slice::slice_subrange(buffer, 2, buffer.len());
        if class_id == COMMAND_CLASS_ID && command_id == SET_VALUE_ID {
            SetValueSerializer.deserialize(body)
        } else if class_id == COMMAND_CLASS_ID && command_id == GET_VALUE_ID {
            GetValueSerializer.deserialize(body)
        } else {
            Err(Error::new(ErrorKind::Protocol))
        }
    }
}

} // verus!
