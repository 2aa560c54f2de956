use zwave::common::{Error, ErrorKind, NodeId};
use zwave::protocol::bits::{FunctionId, MessageTypeId, PreambleId};
use zwave::protocol::command::basic::{
    GetValue, GetValueSerializer, Report, SetValue, SetValueSerializer,
};
use zwave::protocol::command::{Command, CommandSerializer};
use zwave::protocol::message::serialization::fold_xor;
use zwave::protocol::message::{
    Ack, Cancel, Message, MessageReceived, MessageSerializer, MessageTransmitted, Nack, SendData,
};
use zwave::protocol::serialization::{bytes_missing, Reader};

fn encode(serializer: &MessageSerializer, message: Message) -> Vec<u8> {
    let mut buffer = Vec::new();
    serializer.serialize(&message, &mut buffer).unwrap();
    buffer
}

fn decode(serializer: &MessageSerializer, bytes: &[u8]) -> Result<Message, Error> {
    let mut reader = Reader::new(bytes.to_vec());
    serializer.deserialize(&mut reader)
}

fn kind_of(result: Result<Message, Error>) -> ErrorKind {
    result.err().unwrap().kind()
}

fn set_value_request() -> Message {
    Message::SendData(SendData::with_options(NodeId(2), Command::SetValue(SetValue::new(42)), 0x11, 0x05))
}

fn get_value_request() -> Message {
    Message::SendData(SendData::new(NodeId(2), Command::GetValue(GetValue::new()), 0x11))
}

fn requests() -> Vec<Message> {
    vec![
        Message::Ack(Ack::new()),
        Message::Nack(Nack::new()),
        Message::Cancel(Cancel::new()),
        set_value_request(),
        get_value_request(),
        Message::SendData(SendData::with_options(NodeId(255), Command::SetValue(SetValue::new(0)), 0xFF, 0x00)),
    ]
}

fn responses() -> Vec<Message> {
    vec![
        Message::Ack(Ack::new()),
        Message::Nack(Nack::new()),
        Message::Cancel(Cancel::new()),
        Message::MessageTransmitted(MessageTransmitted::new(0x01)),
        Message::MessageTransmitted(MessageTransmitted::new(0xFF)),
        Message::MessageReceived(MessageReceived::new(0x11, 0x01)),
        Message::MessageReceived(MessageReceived::new(0x00, 0xFE)),
    ]
}

#[test]
fn encodes_set_value_request_exactly() {
    let bytes = encode(&MessageSerializer::for_request(), set_value_request());
    assert_eq!(vec![0x01, 0x0A, 0x00, 0x13, 0x02, 0x03, 0x20, 0x01, 0x2A, 0x05, 0x11, 0xF8], bytes);
}

#[test]
fn encodes_reference_messages_exactly() {
    let request = MessageSerializer::for_request();
    let response = MessageSerializer::for_response();
    assert_eq!(vec![0x06], encode(&request, Message::Ack(Ack::new())));
    assert_eq!(vec![0x15], encode(&request, Message::Nack(Nack::new())));
    assert_eq!(vec![0x18], encode(&request, Message::Cancel(Cancel::new())));
    assert_eq!(
        vec![0x01, 0x09, 0x00, 0x13, 0x02, 0x02, 0x20, 0x02, 0x05, 0x11, 0xD3],
        encode(&request, get_value_request())
    );
    assert_eq!(
        vec![0x01, 0x04, 0x01, 0x13, 0x01, 0xE8],
        encode(&response, Message::MessageTransmitted(MessageTransmitted::new(0x01)))
    );
    assert_eq!(
        vec![0x01, 0x05, 0x00, 0x13, 0x11, 0x01, 0xF9],
        encode(&response, Message::MessageReceived(MessageReceived::new(0x11, 0x01)))
    );
}

#[test]
fn decodes_get_value_request() {
    let decoded = decode(
        &MessageSerializer::for_request(),
        &[0x01, 0x09, 0x00, 0x13, 0x02, 0x02, 0x20, 0x02, 0x05, 0x11, 0xD3],
    );
    assert_eq!(Ok(get_value_request()), decoded);
}

#[test]
fn rejects_a_wrong_parity_byte() {
    let decoded = decode(
        &MessageSerializer::for_request(),
        &[0x01, 0x0A, 0x00, 0x13, 0x02, 0x03, 0x20, 0x01, 0x2A, 0x05, 0x11, 0x2A],
    );
    assert_eq!(Err(Error::new(ErrorKind::Corrupt)), decoded);
}

#[test]
fn decodes_message_received_on_the_response_side() {
    let decoded = decode(&MessageSerializer::for_response(), &[0x01, 0x05, 0x00, 0x13, 0x11, 0x01, 0xF9]);
    assert_eq!(Ok(Message::MessageReceived(MessageReceived::new(0x11, 0x01))), decoded);
}

#[test]
fn every_registered_message_round_trips() {
    for (serializer, messages) in [
        (MessageSerializer::for_request(), requests()),
        (MessageSerializer::for_response(), responses()),
    ] {
        for m in messages {
            let bytes = encode(&serializer, m);
            let mut reader = Reader::new(bytes.clone());
            assert_eq!(Ok(m), serializer.deserialize(&mut reader));
            assert_eq!(bytes.as_slice(), reader.as_slice());
        }
    }
}

#[test]
fn every_encoded_frame_has_closing_parity() {
    let frames = [
        encode(&MessageSerializer::for_request(), set_value_request()),
        encode(&MessageSerializer::for_request(), get_value_request()),
        encode(&MessageSerializer::for_response(), Message::MessageTransmitted(MessageTransmitted::new(0x42))),
        encode(&MessageSerializer::for_response(), Message::MessageReceived(MessageReceived::new(0x2A, 0x01))),
    ];
    for bytes in frames.iter() {
        assert_eq!(0, fold_xor(0xFF, &bytes[1..]));
    }
    assert_eq!(0x00, fold_xor(0x00, &[]));
    assert_eq!(0xFF ^ 0x0F ^ 0x30, fold_xor(0xFF, &[0x0F, 0x30]));
}

#[test]
fn changing_any_byte_after_the_length_is_detected() {
    let serializer = MessageSerializer::for_request();
    let bytes = encode(&serializer, set_value_request());
    for i in 2..bytes.len() {
        for delta in [0x01u8, 0x80, 0xFF] {
            let mut bad = bytes.clone();
            bad[i] ^= delta;
            assert_eq!(ErrorKind::Corrupt, kind_of(decode(&serializer, &bad)));
        }
    }
}

#[test]
fn a_larger_length_byte_reads_as_short() {
    let serializer = MessageSerializer::for_request();
    let mut bytes = encode(&serializer, set_value_request());
    bytes[1] = !bytes[1];
    assert_eq!(ErrorKind::ShortRead, kind_of(decode(&serializer, &bytes)));
}

#[test]
fn every_truncation_is_a_short_read() {
    for (serializer, messages) in [
        (MessageSerializer::for_request(), requests()),
        (MessageSerializer::for_response(), responses()),
    ] {
        for m in messages {
            let bytes = encode(&serializer, m);
            for k in 0..bytes.len() {
                assert_eq!(ErrorKind::ShortRead, kind_of(decode(&serializer, &bytes[..k])));
            }
        }
    }
}

#[test]
fn every_unknown_preamble_is_a_protocol_error() {
    let serializer = MessageSerializer::for_response();
    for b in 0..=255u8 {
        if PreambleId::from_u8(b).is_none() {
            assert_eq!(ErrorKind::Protocol, kind_of(decode(&serializer, &[b, 0x01, 0x02])));
        }
    }
    assert_eq!(ErrorKind::Protocol, kind_of(decode(&serializer, &[0x00])));
    assert_eq!(ErrorKind::Protocol, kind_of(decode(&serializer, &[0xFF])));
}

#[test]
fn frames_of_the_other_side_are_protocol_errors() {
    let request = MessageSerializer::for_request();
    let response = MessageSerializer::for_response();
    let transmitted = encode(&response, Message::MessageTransmitted(MessageTransmitted::new(1)));
    assert_eq!(ErrorKind::Protocol, kind_of(decode(&request, &transmitted)));
    let send = encode(&request, set_value_request());
    assert_eq!(Ok(Message::MessageReceived(MessageReceived::new(0x02, 0x03))), decode(&response, &send));
}

#[test]
fn unknown_direction_or_function_is_a_protocol_error() {
    let request = MessageSerializer::for_request();
    // direction 0x02, function 0x13, body 0x00; parity 0xFF ^ 04 ^ 02 ^ 13 ^ 00
    assert_eq!(ErrorKind::Protocol, kind_of(decode(&request, &[0x01, 0x04, 0x02, 0x13, 0x00, 0xEA])));
    // direction 0x00, function 0x14
    assert_eq!(ErrorKind::Protocol, kind_of(decode(&request, &[0x01, 0x04, 0x00, 0x14, 0x00, 0xEF])));
}

#[test]
fn a_frame_too_short_for_its_header_is_a_short_read() {
    let request = MessageSerializer::for_request();
    assert_eq!(ErrorKind::ShortRead, kind_of(decode(&request, &[0x01, 0x01, 0xFE])));
    assert_eq!(ErrorKind::Corrupt, kind_of(decode(&request, &[0x01, 0x00])));
}

#[test]
fn serializing_a_message_the_codec_does_not_know_fails() {
    let request = MessageSerializer::for_request();
    let response = MessageSerializer::for_response();
    let mut buffer = vec![0xAA];
    let result = request.serialize(&Message::MessageTransmitted(MessageTransmitted::new(1)), &mut buffer);
    assert_eq!(Err(Error::new(ErrorKind::Protocol)), result);
    assert_eq!(vec![0xAA], buffer);
    let result = response.serialize(&set_value_request(), &mut buffer);
    assert_eq!(Err(Error::new(ErrorKind::Protocol)), result);
    assert_eq!(vec![0xAA], buffer);
}

#[test]
fn serializing_appends_to_what_the_buffer_holds() {
    let mut buffer = vec![0x99];
    MessageSerializer::for_response()
        .serialize(&Message::MessageTransmitted(MessageTransmitted::new(0x01)), &mut buffer)
        .unwrap();
    assert_eq!(vec![0x99, 0x01, 0x04, 0x01, 0x13, 0x01, 0xE8], buffer);
}

#[test]
fn message_received_needs_two_body_bytes() {
    let response = MessageSerializer::for_response();
    // length 4: direction 0x00, function 0x13, callback 0x11, parity
    let parity = fold_xor(0xFF, &[0x04, 0x00, 0x13, 0x11]);
    assert_eq!(ErrorKind::ShortRead, kind_of(decode(&response, &[0x01, 0x04, 0x00, 0x13, 0x11, parity])));
}

#[test]
fn message_transmitted_needs_its_flags() {
    let response = MessageSerializer::for_response();
    let parity = fold_xor(0xFF, &[0x03, 0x01, 0x13]);
    assert_eq!(ErrorKind::ShortRead, kind_of(decode(&response, &[0x01, 0x03, 0x01, 0x13, parity])));
}

#[test]
fn send_data_with_a_command_longer_than_its_body_is_a_short_read() {
    let request = MessageSerializer::for_request();
    let body = [0x00, 0x13, 0x02, 0x09, 0x20, 0x01, 0x2A, 0x05, 0x11];
    let mut frame = vec![0x0A];
    frame.extend_from_slice(&body);
    let parity = fold_xor(0xFF, &frame);
    let mut bytes = vec![0x01];
    bytes.extend_from_slice(&frame);
    bytes.push(parity);
    assert_eq!(ErrorKind::ShortRead, kind_of(decode(&request, &bytes)));
}

#[test]
fn send_data_with_an_unknown_command_is_a_protocol_error() {
    let request = MessageSerializer::for_request();
    let frame = [0x0A, 0x00, 0x13, 0x02, 0x03, 0x21, 0x01, 0x2A, 0x05, 0x11];
    let mut bytes = vec![0x01];
    bytes.extend_from_slice(&frame);
    bytes.push(fold_xor(0xFF, &frame));
    assert_eq!(ErrorKind::Protocol, kind_of(decode(&request, &bytes)));
}

#[test]
fn the_reader_hands_out_messages_one_after_another() {
    let request = MessageSerializer::for_request();
    let mut bytes = vec![0x06];
    bytes.extend(encode(&request, get_value_request()));
    bytes.push(0x15);
    let mut reader = Reader::new(bytes);
    assert_eq!(Ok(Message::Ack(Ack::new())), request.deserialize(&mut reader));
    assert_eq!(Ok(get_value_request()), request.deserialize(&mut reader));
    assert_eq!(Ok(Message::Nack(Nack::new())), request.deserialize(&mut reader));
    assert_eq!(ErrorKind::ShortRead, kind_of(request.deserialize(&mut reader)));
    assert_eq!(13, reader.as_slice().len());
}

#[test]
fn reader_reads_exact_counts() {
    let mut reader = Reader::new(vec![1, 2, 3]);
    assert_eq!(Ok(1), reader.read_u8());
    assert_eq!(Err(Error::new(ErrorKind::ShortRead)), reader.read_slice(3));
    assert_eq!(Ok(vec![2, 3]), reader.read_slice(2));
    assert_eq!(Err(Error::new(ErrorKind::ShortRead)), reader.read_u8());
    assert_eq!(&[1, 2, 3], reader.as_slice());
}

#[test]
fn bytes_missing_follows_the_message_layout() {
    assert_eq!(1, bytes_missing(&[]));
    assert_eq!(0, bytes_missing(&[0x06]));
    assert_eq!(0, bytes_missing(&[0x55]));
    assert_eq!(1, bytes_missing(&[0x01]));
    assert_eq!(10, bytes_missing(&[0x01, 0x0A]));
    assert_eq!(3, bytes_missing(&[0x01, 0x0A, 0x00, 0x13, 0x02, 0x03, 0x20, 0x01, 0x2A]));
    assert_eq!(0, bytes_missing(&[0x01, 0x0A, 0x00, 0x13, 0x02, 0x03, 0x20, 0x01, 0x2A, 0x05, 0x11, 0xF8]));
}

#[test]
fn command_codec_encodes_class_id_and_body() {
    let commands = CommandSerializer::new();
    let mut buffer = Vec::new();
    commands.serialize(&Command::SetValue(SetValue::new(7)), &mut buffer).unwrap();
    commands.serialize(&Command::GetValue(GetValue::new()), &mut buffer).unwrap();
    assert_eq!(vec![0x20, 0x01, 0x07, 0x20, 0x02], buffer);
}

#[test]
fn command_codec_decodes_and_rejects() {
    let commands = CommandSerializer::new();
    assert_eq!(Ok(Command::SetValue(SetValue::new(9))), commands.deserialize(&[0x20, 0x01, 0x09]));
    assert_eq!(Ok(Command::GetValue(GetValue::new())), commands.deserialize(&[0x20, 0x02, 0x77, 0x78]));
    assert_eq!(Err(Error::new(ErrorKind::ShortRead)), commands.deserialize(&[0x20]));
    assert_eq!(Err(Error::new(ErrorKind::ShortRead)), commands.deserialize(&[0x20, 0x01]));
    assert_eq!(Err(Error::new(ErrorKind::ShortRead)), commands.deserialize(&[0x20, 0x01, 0x01, 0x02]));
    assert_eq!(Err(Error::new(ErrorKind::Protocol)), commands.deserialize(&[0x20, 0x03]));
    assert_eq!(Err(Error::new(ErrorKind::Protocol)), commands.deserialize(&[0x21, 0x01, 0x00]));
}

#[test]
fn body_serializers_of_the_basic_class() {
    assert_eq!((0x20, 0x01), SetValueSerializer.key());
    assert_eq!((0x20, 0x02), GetValueSerializer.key());
    let mut buffer = vec![0x20, 0x01];
    SetValueSerializer.serialize(&SetValue::new(0x2A), &mut buffer);
    GetValueSerializer.serialize(&GetValue::new(), &mut buffer);
    assert_eq!(vec![0x20, 0x01, 0x2A], buffer);
    assert_eq!(Ok(Command::SetValue(SetValue::new(5))), SetValueSerializer.deserialize(&[5]));
    assert_eq!(Err(Error::new(ErrorKind::ShortRead)), SetValueSerializer.deserialize(&[]));
    assert_eq!(Ok(Command::GetValue(GetValue::new())), GetValueSerializer.deserialize(&[1, 2]));
}

#[test]
fn commands_report_their_keys() {
    let set = Command::SetValue(SetValue::new(1));
    let get = Command::GetValue(GetValue::new());
    assert_eq!((0x20, 0x01), (set.command_class_id(), set.command_id()));
    assert_eq!((0x20, 0x02), (get.command_class_id(), get.command_id()));
    assert_eq!(3, Report::new(3).value);
}

#[test]
fn messages_report_preamble_and_frame_key() {
    assert_eq!(PreambleId::Ack, Message::Ack(Ack::new()).preamble_id());
    assert_eq!(PreambleId::Frame, set_value_request().preamble_id());
    assert_eq!(None, Message::Cancel(Cancel::new()).frame_key());
    assert_eq!(
        Some((MessageTypeId::Response, FunctionId::SendData)),
        Message::MessageTransmitted(MessageTransmitted::new(0)).frame_key()
    );
    assert_eq!(
        Some((MessageTypeId::Request, FunctionId::SendData)),
        Message::MessageReceived(MessageReceived::new(0, 0)).frame_key()
    );
}

#[test]
fn ids_map_to_and_from_bytes() {
    assert_eq!(Some(PreambleId::Frame), PreambleId::from_u8(0x01));
    assert_eq!(Some(PreambleId::Ack), PreambleId::from_u8(0x06));
    assert_eq!(Some(PreambleId::Nack), PreambleId::from_u8(0x15));
    assert_eq!(Some(PreambleId::Cancel), PreambleId::from_u8(0x18));
    assert_eq!(None, PreambleId::from_u8(0x02));
    assert_eq!(0x18, PreambleId::Cancel.value());
    assert_eq!(Some(MessageTypeId::Request), MessageTypeId::from_u8(0x00));
    assert_eq!(Some(MessageTypeId::Response), MessageTypeId::from_u8(0x01));
    assert_eq!(None, MessageTypeId::from_u8(0x02));
    assert_eq!(0x01, MessageTypeId::Response.value());
    assert_eq!(Some(FunctionId::SendData), FunctionId::from_u8(0x13));
    assert_eq!(None, FunctionId::from_u8(0x12));
    assert_eq!(0x13, FunctionId::SendData.value());
}

#[test]
fn errors_describe_their_kind() {
    let cases = [
        (ErrorKind::Protocol, "protocol error"),
        (ErrorKind::ShortRead, "data is too short"),
        (ErrorKind::Corrupt, "data is corrupt"),
        (ErrorKind::Io, "I/O error"),
        (ErrorKind::Timeout, "operation timed out"),
        (ErrorKind::Nack, "request not acknowledged"),
        (ErrorKind::Cancel, "request canceled"),
    ];
    for (kind, text) in cases {
        let e = Error::new(kind);
        assert_eq!(kind, e.kind());
        assert_eq!(text, e.description());
    }
}

#[test]
fn accessors_return_their_fields() {
    let s = SendData::with_options(NodeId(9), Command::GetValue(GetValue::new()), 0x33, 0x44);
    assert_eq!(NodeId(9), s.destination());
    assert_eq!(9, s.destination().value());
    assert_eq!(0x33, s.callback_id());
    assert_eq!(0x44, s.packet_options());
    assert_eq!(0x05, SendData::new(NodeId(1), Command::GetValue(GetValue::new()), 0).packet_options());
    assert_eq!(0x7F, MessageTransmitted::new(0x7F).flags());
    let r = MessageReceived::new(0x01, 0x02);
    assert_eq!((0x01, 0x02), (r.callback_id(), r.flags()));
    assert_eq!(0x2A, SetValue::new(0x2A).value());
}
