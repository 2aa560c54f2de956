//! The message codec: a preamble byte, then for frames a length byte,
//! direction, function, body and a parity byte.

use vstd::prelude::*;
use crate::common::{Error, ErrorKind, NodeId, fail};
use crate::protocol::bits::{
    FunctionId, MessageTypeId, PreambleId, PREAMBLE_ACK, PREAMBLE_CANCEL, PREAMBLE_FRAME,
    PREAMBLE_NACK,
};
use crate::protocol::command::{Command, CommandSerializer, command_bytes, decode_command};
use crate::protocol::message::{
    Ack, Cancel, Message, MessageReceived, MessageTransmitted, Nack, SendData,
};
use crate::protocol::serialization::Reader;

verus! {

/// `seed` XORed with every byte of `bytes`, from the left.
pub open spec fn xor_fold(seed: u8, bytes: Seq<u8>) -> u8
    decreases bytes.len(),
{
    if bytes.len() == 0 {
        seed
    } else {
        xor_fold(seed, bytes.drop_last()) ^ bytes.last()
    }
}

/// The parity of a run of bytes: their XOR, seeded with 0xFF.
pub open spec fn parity(bytes: Seq<u8>) -> u8 {
    xor_fold(0xFF, bytes)
}

/// The body of a framed message, between its function byte and its parity byte.
pub open spec fn frame_body(m: Message) -> Seq<u8> {
    match m {
        Message::SendData(s) => seq![s.destination.0, command_bytes(s.command).len() as u8]
            + command_bytes(s.command) + seq![s.packet_options, s.callback_id],
        Message::MessageTransmitted(t) => seq![t.flags],
        Message::MessageReceived(r) => seq![r.callback_id, r.flags],
        _ => Seq::empty(),
    }
}

/// Direction, function and body of a framed message.
pub open spec fn frame_payload(m: Message) -> Seq<u8> {
    seq![m.spec_frame_key().0.spec_value(), m.spec_frame_key().1.spec_value()] + frame_body(m)
}

/// A frame up to its parity byte: the length byte, which counts what follows it
/// (the parity byte too), then the payload.
pub open spec fn frame_head(m: Message) -> Seq<u8> {
    seq![(frame_payload(m).len() + 1) as u8] + frame_payload(m)
}

/// A message on the wire.
pub open spec fn encode_message(m: Message) -> Seq<u8> {
    if m.spec_preamble_id() == PreambleId::Frame {
        seq![PREAMBLE_FRAME] + frame_head(m).push(parity(frame_head(m)))
    } else {
        seq![m.spec_preamble_id().spec_value()]
    }
}

/// Whether a codec that serves traffic in `direction` knows `m`: control bytes on
/// both sides, `SendData` on the request side, the controller's reports on the
/// response side.
pub open spec fn registered(direction: MessageTypeId, m: Message) -> bool {
    match m {
        Message::SendData(_) => direction == MessageTypeId::Request,
        Message::MessageTransmitted(_) => direction == MessageTypeId::Response,
        Message::MessageReceived(_) => direction == MessageTypeId::Response,
        _ => true,
    }
}

/// A `SendData` body: destination, command length, command, options, callback id.
pub open spec fn send_data_from_body(body: Seq<u8>) -> Result<Message, Error> {
    if body.len() < 4 || body.len() < 4 + body[1] {
        fail(ErrorKind::ShortRead)
    } else {
        match decode_command(body.subrange(2, 2 + body[1])) {
            Ok(command) => Ok(
                Message::SendData(
                    SendData {
                        destination: NodeId(body[0]),
                        command,
                        packet_options: body[body.len() - 2],
                        callback_id: body[body.len() - 1],
                    },
                ),
            ),
            Err(e) => Err(e),
        }
    }
}

/// A `MessageTransmitted` body: the flags.
pub open spec fn transmitted_from_body(body: Seq<u8>) -> Result<Message, Error> {
    if body.len() < 1 {
        fail(ErrorKind::ShortRead)
    } else {
        Ok(Message::MessageTransmitted(MessageTransmitted { flags: body[0] }))
    }
}

/// A `MessageReceived` body: the callback id, then the flags.
pub open spec fn received_from_body(body: Seq<u8>) -> Result<Message, Error> {
    if body.len() < 2 {
        fail(ErrorKind::ShortRead)
    } else {
        Ok(Message::MessageReceived(MessageReceived { callback_id: body[0], flags: body[1] }))
    }
}

/// The message of a frame whose parity checked, from what follows its length
/// byte (direction, function, body, parity).
pub open spec fn decode_frame_payload(direction: MessageTypeId, payload: Seq<u8>) -> Result<
    Message,
    Error,
> {
    match (MessageTypeId::spec_from_u8(payload[0]), FunctionId::spec_from_u8(payload[1])) {
        (Some(t), Some(_)) => {
            let body = payload.subrange(2, payload.len() - 1);
            if direction == MessageTypeId::Request && t == MessageTypeId::Request {
                send_data_from_body(body)
            } else if direction == MessageTypeId::Response && t == MessageTypeId::Response {
                transmitted_from_body(body)
            } else if direction == MessageTypeId::Response && t == MessageTypeId::Request {
                received_from_body(body)
            } else {
                fail(ErrorKind::Protocol)
            }
        },
        _ => fail(ErrorKind::Protocol),
    }
}

/// A frame from its length byte and the `length` bytes after it.
pub open spec fn decode_frame(direction: MessageTypeId, length: u8, payload: Seq<u8>) -> Result<
    Message,
    Error,
> {
    if parity(seq![length] + payload) != 0 {
        fail(ErrorKind::Corrupt)
    } else if payload.len() < 3 {
        fail(ErrorKind::ShortRead)
    } else {
        decode_frame_payload(direction, payload)
    }
}

/// What a codec serving `direction` makes of `input`, the bytes it can read.
pub open spec fn decode_message(direction: MessageTypeId, input: Seq<u8>) -> Result<
    Message,
    Error,
> {
    if input.len() == 0 {
        fail(ErrorKind::ShortRead)
    } else {
        match PreambleId::spec_from_u8(input[0]) {
            None => fail(ErrorKind::Protocol),
            Some(PreambleId::Ack) => Ok(Message::Ack(Ack {})),
            Some(PreambleId::Nack) => Ok(Message::Nack(Nack {})),
            Some(PreambleId::Cancel) => Ok(Message::Cancel(Cancel {})),
            Some(PreambleId::Frame) => {
                if input.len() < 2 || input.len() < 2 + input[1] {
                    fail(ErrorKind::ShortRead)
                } else {
                    decode_frame(direction, input[1], input.subrange(2, 2 + input[1]))
                }
            },
        }
    }
}

/// How many bytes of `input` decoding reads: the preamble, and for a frame the
/// length byte and, when they are all there, the bytes it counts.
pub open spec fn message_extent(input: Seq<u8>) -> int {
    if input.len() == 0 {
        0
    } else if input[0] != PREAMBLE_FRAME || input.len() < 2 {
        1
    } else if input.len() < 2 + input[1] {
        2
    } else {
        2 + input[1]
    }
}

proof fn lemma_xor_fold_prepend(seed: u8, first: u8, rest: Seq<u8>)
    ensures
        xor_fold(seed, seq![first] + rest) == xor_fold(seed ^ first, rest),
    decreases rest.len(),
{
    let whole = seq![first] + rest;
    if rest.len() > 0 {
        lemma_xor_fold_prepend(seed, first, rest.drop_last());
        assert(whole.drop_last() =~= seq![first] + rest.drop_last());
        assert(whole.last() == rest.last());
    } else {
        assert(whole.drop_last() =~= Seq::<u8>::empty());
        assert(xor_fold(seed, whole.drop_last()) == seed);
        assert(xor_fold(seed ^ first, rest) == seed ^ first);
    }
}

/// `seed` XORed with every byte of `bytes`.
pub fn fold_xor(seed: u8, bytes: &[u8]) -> (r: u8)
    ensures
        r == xor_fold(seed, bytes@),
{
    let mut acc: u8 = seed;
    let mut i: usize = 0;
    while i < bytes.len()
        invariant
            i <= bytes@.len(),
            acc == xor_fold(seed, bytes@.take(i as int)),
        decreases bytes@.len() - i,
    {
        proof {
            assert(bytes@.take(i + 1).drop_last() =~= bytes@.take(i as int));
        }
        acc = acc ^ bytes[i];
        i = i + 1;
    }
    proof {
        assert(bytes@.take(i as int) =~= bytes@);
    }
    acc
}

/// Encodes and decodes the body of a `SendData`; owns the command codec.
struct SendDataSerializer(CommandSerializer);

impl SendDataSerializer {
    fn serialize(&self, message: &SendData, buffer: &mut Vec<u8>)
        ensures
            final(buffer)@ == old(buffer)@ + frame_body(Message::SendData(*message)),
    {
        buffer.push(message.destination.value());
        let length_offset = buffer.len();
        buffer.push(0x00);
        let payload_offset = buffer.len();
        // Every command has an encoding, so this cannot fail.
        let _ = self.0.serialize(&message.command, buffer);
        let command_length = buffer.len() - payload_offset;
        buffer[length_offset] = command_length as u8;
        buffer.push(message.packet_options);
        buffer.push(message.callback_id);
        proof {
            assert(buffer@ =~= old(buffer)@ + frame_body(Message::SendData(*message)));
        }
    }

    fn deserialize(&self, body: &[u8]) -> (r: Result<Message, Error>)
        ensures
            r == send_data_from_body(body@),
    {
        let n = body.len();
        if n < 4 || n - 4 < body[1] as usize {
            return Err(Error::new(ErrorKind::ShortRead));
        }
        let payload_length = body[1] as usize;
        let command = vstd::slice::slice_subrange(body, 2, 2 + payload_length);
        match self.0.deserialize(command) {
            Ok(command) => Ok(
                Message::SendData(
                    SendData {
                        destination: NodeId(body[0]),
                        command,
                        packet_options: body[n - 2],
                        callback_id: body[n - 1],
                    },
                ),
            ),
            Err(e) => Err(e),
        }
    }
}

struct MessageTransmittedSerializer;

impl MessageTransmittedSerializer {
    fn serialize(&self, message: &MessageTransmitted, buffer: &mut Vec<u8>)
        ensures
            final(buffer)@ == old(buffer)@ + frame_body(Message::MessageTransmitted(*message)),
    {
        buffer.push(message.flags);
        proof {
            assert(buffer@ =~= old(buffer)@ + frame_body(Message::MessageTransmitted(*message)));
        }
    }

    fn deserialize(&self, body: &[u8]) -> (r: Result<Message, Error>)
        ensures
            r == transmitted_from_body(body@),
    {
        if body.len() < 1 {
            return Err(Error::new(ErrorKind::ShortRead));
        }
        Ok(Message::MessageTransmitted(MessageTransmitted::new(body[0])))
    }
}

struct MessageReceivedSerializer;

impl MessageReceivedSerializer {
    fn serialize(&self, message: &MessageReceived, buffer: &mut Vec<u8>)
        ensures
            final(buffer)@ == old(buffer)@ + frame_body(Message::MessageReceived(*message)),
    {
        buffer.push(message.callback_id);
        buffer.push(message.flags);
        proof {
            assert(buffer@ =~= old(buffer)@ + frame_body(Message::MessageReceived(*message)));
        }
    }

    fn deserialize(&self, body: &[u8]) -> (r: Result<Message, Error>)
        ensures
            r == received_from_body(body@),
    {
        if body.len() < 2 {
            return Err(Error::new(ErrorKind::ShortRead));
        }
        Ok(Message::MessageReceived(MessageReceived::new(body[0], body[1])))
    }
}

/// Frames the messages registered for one direction of traffic.
struct FrameSerializer {
    direction: MessageTypeId,
    send_data: SendDataSerializer,
}

impl FrameSerializer {
    fn for_request() -> (r: FrameSerializer)
        ensures
            r.direction == MessageTypeId::Request,
    {
        FrameSerializer {
            direction: MessageTypeId::Request,
            send_data: SendDataSerializer(CommandSerializer::new()),
        }
    }

    fn for_response() -> (r: FrameSerializer)
        ensures
            r.direction == MessageTypeId::Response,
    {
        FrameSerializer {
            direction: MessageTypeId::Response,
            send_data: SendDataSerializer(CommandSerializer::new()),
        }
    }

    /// Appends everything of a framed message after its preamble.
    fn serialize(&self, message: &Message, buffer: &mut Vec<u8>)
        requires
            message.spec_preamble_id() == PreambleId::Frame,
        ensures
            final(buffer)@ == old(buffer)@ + frame_head(*message).push(
                parity(frame_head(*message)),
            ),
    {
        let length_index = buffer.len();
        buffer.push(0x00);
        match message {
            Message::MessageTransmitted(_) => {
                buffer.push(MessageTypeId::Response.value());
            },
            _ => {
                buffer.push(MessageTypeId::Request.value());
            },
        }
        buffer.push(FunctionId::SendData.value());
        match message {
            Message::SendData(s) => self.send_data.serialize(s, buffer),
            Message::MessageTransmitted(t) => MessageTransmittedSerializer.serialize(t, buffer),
            Message::MessageReceived(m) => MessageReceivedSerializer.serialize(m, buffer),
            _ => {},
        }
        let length = buffer.len() - length_index;
        buffer[length_index] = length as u8;
        proof {
            assert(buffer@.subrange(length_index as int, buffer@.len() as int) =~= frame_head(
                *message,
            ));
        }
        let check = fold_xor(
            0xFF,
            vstd::slice::slice_subrange(buffer.as_slice(), length_index, buffer.len()),
        );
        buffer.push(check);
        proof {
            assert(buffer@ =~= old(buffer)@ + frame_head(*message).push(
                parity(frame_head(*message)),
            ));
        }
    }

    /// Reads a frame after its preamble: the length byte, then that many bytes.
    fn deserialize(&self, reader: &mut Reader) -> (r: Result<Message, Error>)
        ensures
            ({
                let input = seq![PREAMBLE_FRAME] + old(reader).remaining();
                &&& r == decode_message(self.direction, input)
                &&& final(reader).remaining() == old(reader).remaining().skip(
                    message_extent(input) - 1,
                )
                &&& final(reader).consumed() == old(reader).consumed() + old(
                    reader,
                ).remaining().take(message_extent(input) - 1)
            }),
    {
        let ghost input = seq![PREAMBLE_FRAME] + reader.remaining();
        let length = match reader.read_u8() {
            Ok(b) => b,
            Err(e) => {
                proof {
                    assert(old(reader).remaining().take(0) =~= Seq::<u8>::empty());
                    assert(old(reader).remaining().skip(0) =~= old(reader).remaining());
                    assert(old(reader).consumed() + Seq::<u8>::empty() =~= old(reader).consumed());
                }
                return Err(e);
            },
        };
        let payload = match reader.read_slice(length as usize) {
            Ok(p) => p,
            Err(e) => {
                proof {
                    assert(input[1] == length);
                    assert(old(reader).remaining().take(1) =~= seq![length]);
                }
                return Err(e);
            },
        };
        proof {
            assert(input.subrange(2, 2 + length) =~= payload@);
            assert(old(reader).remaining().skip(1).skip(length as int) =~= old(
                reader,
            ).remaining().skip(1 + length));
            assert(old(reader).remaining().take(1 + length) =~= seq![length] + payload@);
            lemma_xor_fold_prepend(0xFF, length, payload@);
        }
        if fold_xor(0xFF ^ length, payload.as_slice()) != 0 {
            return Err(Error::new(ErrorKind::Corrupt));
        }
        if payload.len() < 3 {
            return Err(Error::new(ErrorKind::ShortRead));
        }
        let body = vstd::slice::slice_subrange(payload.as_slice(), 2, payload.len() - 1);
        match (MessageTypeId::from_u8(payload[0]), FunctionId::from_u8(payload[1])) {
            (Some(t), Some(_)) => {
                match (self.direction, t) {
                    (MessageTypeId::Request, MessageTypeId::Request) => {
                        self.send_data.deserialize(body)
                    },
                    (MessageTypeId::Response, MessageTypeId::Response) => {
                        MessageTransmittedSerializer.deserialize(body)
                    },
                    (MessageTypeId::Response, MessageTypeId::Request) => {
                        MessageReceivedSerializer.deserialize(body)
                    },
                    _ => Err(Error::new(ErrorKind::Protocol)),
                }
            },
            _ => Err(Error::new(ErrorKind::Protocol)),
        }
    }
}

/// Encodes and decodes whole messages for one direction of traffic.
pub struct MessageSerializer {
    frames: FrameSerializer,
}

impl MessageSerializer {
    /// The direction of traffic this codec serves.
    pub closed spec fn direction(&self) -> MessageTypeId {
        self.frames.direction
    }

    /// The codec for what the host sends: control bytes and `SendData`.
    pub fn for_request() -> (r: MessageSerializer)
        ensures
            r.direction() == MessageTypeId::Request,
    {
        MessageSerializer { frames: FrameSerializer::for_request() }
    }

    /// The codec for what the controller sends: control bytes, `MessageTransmitted`
    /// and `MessageReceived`.
    pub fn for_response() -> (r: MessageSerializer)
        ensures
            r.direction() == MessageTypeId::Response,
    {
        MessageSerializer { frames: FrameSerializer::for_response() }
    }

    /// Appends `message` to `buffer`; `Protocol`, with `buffer` untouched, for a
    /// framed message that this codec does not know.
    pub fn serialize(&self, message: &Message, buffer: &mut Vec<u8>) -> (r: Result<(), Error>)
        ensures
            registered(self.direction(), *message) ==> r is Ok && final(buffer)@ == old(
                buffer,
            )@ + encode_message(*message),
            !registered(self.direction(), *message) ==> r == fail::<()>(ErrorKind::Protocol)
                && final(buffer)@ == old(buffer)@,
    {
        let known = match message {
            Message::SendData(_) => self.frames.direction == MessageTypeId::Request,
            Message::MessageTransmitted(_) | Message::MessageReceived(_) => {
                self.frames.direction == MessageTypeId::Response
            },
            _ => true,
        };
        if !known {
            return Err(Error::new(ErrorKind::Protocol));
        }
        let preamble = message.preamble_id();
        buffer.push(preamble.value());
        match preamble {
            PreambleId::Frame => {
                self.frames.serialize(message, buffer);
                proof {
                    assert(buffer@ =~= old(buffer)@ + encode_message(*message));
                }
            },
            _ => {
                proof {
                    assert(buffer@ =~= old(buffer)@ + encode_message(*message));
                }
            },
        }
        Ok(())
    }

    /// Reads one message from `reader`.
    pub fn deserialize(&self, reader: &mut Reader) -> (r: Result<Message, Error>)
        ensures
            r == decode_message(self.direction(), old(reader).remaining()),
            final(reader).remaining() == old(reader).remaining().skip(
                message_extent(old(reader).remaining()),
            ),
            final(reader).consumed() == old(reader).consumed() + old(reader).remaining().take(
                message_extent(old(reader).remaining()),
            ),
    {
        let ghost input = reader.remaining();
        let preamble = match reader.read_u8() {
            Ok(b) => b,
            Err(e) => {
                proof {
                    assert(input.take(0) =~= Seq::<u8>::empty());
                    assert(input.skip(0) =~= input);
                    assert(old(reader).consumed() + Seq::<u8>::empty() =~= old(reader).consumed());
                }
                return Err(e);
            },
        };
        let ghost rest = reader.remaining();
        match PreambleId::from_u8(preamble) {
            Some(PreambleId::Frame) => {
                let r = self.frames.deserialize(reader);
                proof {
                    assert(seq![PREAMBLE_FRAME] + rest =~= input);
                    let k = message_extent(input) - 1;
                    assert(rest.skip(k) =~= input.skip(k + 1));
                    assert(input.take(k + 1) =~= seq![preamble] + rest.take(k));
                    assert(old(reader).consumed().push(preamble) + rest.take(k) =~= old(
                        reader,
                    ).consumed() + input.take(k + 1));
                }
                r
            },
            p => {
                proof {
                    assert(input.take(1) =~= seq![preamble]);
                }
                match p {
                    Some(PreambleId::Ack) => Ok(Message::Ack(Ack::new())),
                    Some(PreambleId::Nack) => Ok(Message::Nack(Nack::new())),
                    Some(PreambleId::Cancel) => Ok(Message::Cancel(Cancel::new())),
                    _ => Err(Error::new(ErrorKind::Protocol)),
                }
            },
        }
    }
}

} // verus!
