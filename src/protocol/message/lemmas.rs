//! What the message codec guarantees of every message and every input.

use vstd::prelude::*;
use crate::common::{ErrorKind, fail};
use crate::protocol::bits::{
    MessageTypeId, PreambleId, PREAMBLE_ACK, PREAMBLE_CANCEL, PREAMBLE_FRAME, PREAMBLE_NACK,
};
use crate::protocol::command::{Command, command_bytes, decode_command};
use crate::protocol::message::Message;
use crate::protocol::message::serialization::{
    decode_message, encode_message, frame_body, frame_head, frame_payload, message_extent,
    parity, registered, xor_fold,
};
use crate::protocol::serialization::wire_length;

verus! {

/// A command decodes to itself.
pub proof fn lemma_command_round_trip(c: Command)
    ensures
        decode_command(command_bytes(c)) == Ok::<Command, crate::common::Error>(c),
{
    let bytes = command_bytes(c);
    match c {
        Command::SetValue(s) => {
            assert(bytes.subrange(2, bytes.len() as int) =~= seq![s.value]);
        },
        Command::GetValue(_) => {},
    }
}

proof fn lemma_xor_fold_update(seed: u8, bytes: Seq<u8>, j: int, v: u8)
    requires
        0 <= j < bytes.len(),
    ensures
        xor_fold(seed, bytes.update(j, v)) == xor_fold(seed, bytes) ^ bytes[j] ^ v,
    decreases bytes.len(),
{
    let changed = bytes.update(j, v);
    let before = xor_fold(seed, bytes.drop_last());
    let a = bytes[j];
    if j == bytes.len() - 1 {
        assert(changed.drop_last() =~= bytes.drop_last());
        assert(before ^ v == (before ^ a) ^ a ^ v) by (bit_vector);
    } else {
        assert(changed.drop_last() =~= bytes.drop_last().update(j, v));
        lemma_xor_fold_update(seed, bytes.drop_last(), j, v);
        let l = bytes.last();
        assert((before ^ a ^ v) ^ l == (before ^ l) ^ a ^ v) by (bit_vector);
    }
}

proof fn lemma_parity_closes(head: Seq<u8>)
    ensures
        parity(head.push(parity(head))) == 0,
{
    let p = parity(head);
    assert(head.push(p).drop_last() =~= head);
    assert(p ^ p == 0) by (bit_vector);
}

proof fn lemma_body_bounds(m: Message)
    ensures
        frame_body(m).len() <= 9,
        m.spec_preamble_id() == PreambleId::Frame ==> frame_body(m).len() >= 1,
{
    match m {
        Message::SendData(s) => {
            assert(command_bytes(s.command).len() <= 3);
        },
        _ => {},
    }
}

/// The layout of a framed message on the wire.
proof fn lemma_frame_layout(m: Message)
    requires
        m.spec_preamble_id() == PreambleId::Frame,
    ensures
        ({
            let enc = encode_message(m);
            &&& enc.len() == 2 + enc[1]
            &&& enc[0] == PREAMBLE_FRAME
            &&& enc[1] == frame_payload(m).len() + 1
            &&& 3 <= frame_payload(m).len() <= 11
            &&& enc.subrange(2, enc.len() as int) == frame_payload(m).push(parity(frame_head(m)))
            &&& seq![enc[1]] + enc.subrange(2, enc.len() as int) == frame_head(m).push(
                parity(frame_head(m)),
            )
            &&& enc.skip(1) == frame_head(m).push(parity(frame_head(m)))
        }),
{
    lemma_body_bounds(m);
    let enc = encode_message(m);
    let head = frame_head(m);
    assert(enc.subrange(2, enc.len() as int) =~= frame_payload(m).push(parity(head)));
    assert(seq![enc[1]] + enc.subrange(2, enc.len() as int) =~= head.push(parity(head)));
    assert(enc.skip(1) =~= head.push(parity(head)));
}

/// Every message that a codec knows decodes, from its encoding, to itself, and
/// decoding reads the whole encoding.
pub proof fn lemma_round_trip(direction: MessageTypeId, m: Message)
    requires
        registered(direction, m),
    ensures
        decode_message(direction, encode_message(m)) == Ok::<Message, crate::common::Error>(m),
        message_extent(encode_message(m)) == encode_message(m).len(),
{
    let enc = encode_message(m);
    if m.spec_preamble_id() == PreambleId::Frame {
        lemma_frame_layout(m);
        let head = frame_head(m);
        let payload = enc.subrange(2, 2 + enc[1]);
        assert(payload == enc.subrange(2, enc.len() as int));
        lemma_parity_closes(head);
        let body = payload.subrange(2, payload.len() - 1);
        assert(body =~= frame_body(m));
        match m {
            Message::SendData(s) => {
                let cmd = command_bytes(s.command);
                lemma_command_round_trip(s.command);
                assert(body.subrange(2, 2 + body[1]) =~= cmd);
            },
            _ => {},
        }
    }
}

/// The parity of every encoded frame closes: the XOR of everything after the
/// preamble, seeded with 0xFF, is zero.
pub proof fn lemma_frame_parity(m: Message)
    requires
        m.spec_preamble_id() == PreambleId::Frame,
    ensures
        parity(encode_message(m).skip(1)) == 0,
{
    lemma_frame_layout(m);
    lemma_parity_closes(frame_head(m));
}

/// Changing any one byte of an encoded frame after its length byte makes
/// decoding fail with `Corrupt`.
pub proof fn lemma_corruption_detected(direction: MessageTypeId, m: Message, i: int, v: u8)
    requires
        m.spec_preamble_id() == PreambleId::Frame,
        2 <= i < encode_message(m).len(),
        v != encode_message(m)[i],
    ensures
        decode_message(direction, encode_message(m).update(i, v)) == fail::<Message>(
            ErrorKind::Corrupt,
        ),
{
    let enc = encode_message(m);
    let bad = enc.update(i, v);
    lemma_frame_layout(m);
    lemma_parity_closes(frame_head(m));
    let framed = seq![enc[1]] + enc.subrange(2, enc.len() as int);
    assert(seq![bad[1]] + bad.subrange(2, 2 + bad[1]) =~= framed.update(i - 1, v));
    lemma_xor_fold_update(0xFF, framed, i - 1, v);
    let a = framed[i - 1];
    assert(a != v);
    assert(a != v ==> 0u8 ^ a ^ v != 0) by (bit_vector);
}

/// Decoding a proper prefix of an encoded message fails with `ShortRead`.
pub proof fn lemma_truncation_detected(direction: MessageTypeId, m: Message, k: int)
    requires
        0 <= k < encode_message(m).len(),
    ensures
        decode_message(direction, encode_message(m).take(k)) == fail::<Message>(
            ErrorKind::ShortRead,
        ),
{
    if m.spec_preamble_id() == PreambleId::Frame {
        lemma_frame_layout(m);
    }
}

/// Input that starts with a byte that is no preamble fails with `Protocol`.
pub proof fn lemma_unknown_preamble(direction: MessageTypeId, input: Seq<u8>)
    requires
        input.len() > 0,
        input[0] != PREAMBLE_FRAME,
        input[0] != PREAMBLE_ACK,
        input[0] != PREAMBLE_NACK,
        input[0] != PREAMBLE_CANCEL,
    ensures
        decode_message(direction, input) == fail::<Message>(ErrorKind::Protocol),
{
}

/// Once `received` holds a whole message, decoding neither reads nor depends on
/// what follows it.
pub proof fn lemma_decode_reads_one_message(
    direction: MessageTypeId,
    received: Seq<u8>,
    more: Seq<u8>,
)
    requires
        received.len() >= wire_length(received),
    ensures
        decode_message(direction, received + more) == decode_message(direction, received),
        message_extent(received + more) == message_extent(received),
{
    let all = received + more;
    if received[0] == PREAMBLE_FRAME {
        assert(all.subrange(2, 2 + all[1]) =~= received.subrange(2, 2 + received[1]));
    }
}

} // verus!
