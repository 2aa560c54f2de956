//! The Basic command class: read or write a node's value.

use vstd::prelude::*;
use crate::common::{Error, ErrorKind, fail};
use crate::protocol::bits::{CommandClassId, CommandId};
use crate::protocol::command::Command;

verus! {

pub const COMMAND_CLASS_ID: CommandClassId = 0x20;
pub const SET_VALUE_ID: CommandId = 0x01;
pub const GET_VALUE_ID: CommandId = 0x02;

/// Writes a node's value.
#[derive(Debug, Clone, Copy, PartialEq, Eq, Structural)]
pub struct SetValue {
    pub value: u8,
}

impl SetValue {
    pub fn new(value: u8) -> (r: SetValue)
        ensures
            r.value == value,
    {
        SetValue { value }
    }

    pub fn value(&self) -> (r: u8)
        ensures
            r == self.value,
    {
        self.value
    }
}

/// Asks a node for its value.
#[derive(Debug, Clone, Copy, PartialEq, Eq, Structural)]
pub struct GetValue {}

impl GetValue {
    pub fn new() -> (r: GetValue) {
        GetValue {}
    }
}

/// A node's report of its value. It has no wire form yet.
#[derive(Debug, Clone, Copy, PartialEq, Eq, Structural)]
pub struct Report {
    pub value: u8,
}

impl Report {
    pub fn new(value: u8) -> (r: Report)
        ensures
            r.value == value,
    {
        Report { value }
    }
}

/// The body of a `SetValue`: exactly one byte, the value.
pub open spec fn set_value_from_body(body: Seq<u8>) -> Result<Command, Error> {
    if body.len() == 1 {
        Ok(Command::SetValue(SetValue { value: body[0] }))
    } else {
        fail(ErrorKind::ShortRead)
    }
}

/// The body of a `GetValue` is empty; whatever bytes follow are ignored.
pub open spec fn get_value_from_body(body: Seq<u8>) -> Result<Command, Error> {
    Ok(Command::GetValue(GetValue {}))
}

/// Encodes and decodes the body of a `SetValue`.
pub struct SetValueSerializer;

impl SetValueSerializer {
    pub fn key(&self) -> (r: (CommandClassId, CommandId))
        ensures
            r == (COMMAND_CLASS_ID, SET_VALUE_ID),
    {
        (COMMAND_CLASS_ID, SET_VALUE_ID)
    }

    /// Appends the body of `command` to `buffer`.
    pub fn serialize(&self, command: &SetValue, buffer: &mut Vec<u8>)
        ensures
            final(buffer)@ == old(buffer)@.push(command.value),
    {
        buffer.push(command.value);
    }

    pub fn deserialize(&self, buffer: &[u8]) -> (r: Result<Command, Error>)
        ensures
            r == set_value_from_body(buffer@),
    {
        if buffer.len() == 1 {
            Ok(Command::SetValue(SetValue::new(buffer[0])))
        } else {
            Err(Error::new(ErrorKind::ShortRead))
        }
    }
}

/// Encodes and decodes the (empty) body of a `GetValue`.
pub struct GetValueSerializer;

impl GetValueSerializer {
    pub fn key(&self) -> (r: (CommandClassId, CommandId))
        ensures
            r == (COMMAND_CLASS_ID, GET_VALUE_ID),
    {
        (COMMAND_CLASS_ID, GET_VALUE_ID)
    }

    /// A `GetValue` has no body: `buffer` is left as it is.
    pub fn serialize(&self, command: &GetValue, buffer: &mut Vec<u8>)
        ensures
            final(buffer)@ == old(buffer)@,
    {
    }

    pub fn deserialize(&self, buffer: &[u8]) -> (r: Result<Command, Error>)
        ensures
            r == get_value_from_body(buffer@),
    {
        Ok(Command::GetValue(GetValue::new()))
    }
}

} // verus!
