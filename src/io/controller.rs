//! The decisions of the controller. One requester sends a `SendData` and waits for
//! the peer's reply; one background reader takes what the driver receives. Both
//! act on a shared `ControllerState` under one lock; the caller of these functions
//! owns the threads, the lock, the wake-ups and the clock.

use std::collections::VecDeque;
use vstd::prelude::*;
use crate::common::{Error, ErrorKind, NodeId, fail};
use crate::protocol::command::Command;
use crate::protocol::message::{DEFAULT_PACKET_OPTIONS, Message, SendData};

verus! {

/// How long a request waits for its reply, in milliseconds.
pub const REPLY_TIMEOUT_MS: u64 = 100;

/// The callback id that every request carries.
pub const CALLBACK_ID: u8 = 0x11;

/// The transport-level outcome of a request.
#[derive(Debug, Clone, Copy, PartialEq, Eq, Structural)]
pub enum Reply {
    Ack,
    Nack,
    Cancel,
}

/// What the requester does after a wake-up.
#[derive(Debug, Clone, Copy, PartialEq, Eq)]
pub enum Poll {
    /// The request is over, with this result.
    Done(Result<(), Error>),
    /// Wait again, at most this many milliseconds.
    Wait(u64),
}

/// What the reader does after handing over what the driver received.
#[derive(Debug, Clone, Copy, PartialEq, Eq, Structural)]
pub enum ReaderAction {
    /// A reply was queued: wake the requester.
    Notify,
    /// A frame came in: answer it with an `Ack`.
    SendAck,
    /// Nothing to do: receive again.
    Idle,
    /// The link failed: the reader stops, and waiting requesters time out.
    Stop,
}

/// The abstract state: the replies queued for the requester, oldest first, and
/// whether the reader has stopped for good.
pub struct QueueView {
    pub replies: Seq<Reply>,
    pub closed: bool,
}

/// The reply that a received message stands for, if any.
pub open spec fn reply_of(m: Message) -> Option<Reply> {
    match m {
        Message::Ack(_) => Some(Reply::Ack),
        Message::Nack(_) => Some(Reply::Nack),
        Message::Cancel(_) => Some(Reply::Cancel),
        _ => None,
    }
}

/// What a request returns when this reply comes.
pub open spec fn reply_outcome(reply: Reply) -> Result<(), Error> {
    match reply {
        Reply::Ack => Ok(()),
        Reply::Nack => fail(ErrorKind::Nack),
        Reply::Cancel => fail(ErrorKind::Cancel),
    }
}

/// The state once a request is about to go out: earlier replies are dropped.
pub open spec fn begun(q: QueueView) -> QueueView {
    QueueView { replies: Seq::empty(), closed: q.closed }
}

/// The state once the reader has handed over what the driver received.
pub open spec fn delivered(q: QueueView, received: Result<Message, Error>) -> QueueView {
    match received {
        Ok(m) => match reply_of(m) {
            Some(reply) => QueueView { replies: q.replies.push(reply), closed: q.closed },
            None => q,
        },
        Err(e) => if e.kind == ErrorKind::Timeout {
            q
        } else {
            QueueView { replies: q.replies, closed: true }
        },
    }
}

/// What the reader does with what the driver received.
pub open spec fn reader_action(received: Result<Message, Error>) -> ReaderAction {
    match received {
        Ok(m) => if reply_of(m) is Some {
            ReaderAction::Notify
        } else {
            ReaderAction::SendAck
        },
        Err(e) => if e.kind == ErrorKind::Timeout {
            ReaderAction::Idle
        } else {
            ReaderAction::Stop
        },
    }
}

/// The state after the reader has handed over each of `received` in turn.
pub open spec fn delivered_all(q: QueueView, received: Seq<Result<Message, Error>>) -> QueueView
    decreases received.len(),
{
    if received.len() == 0 {
        q
    } else {
        delivered(delivered_all(q, received.drop_last()), received.last())
    }
}

/// The replies that `received` stands for, in order.
pub open spec fn replies_in(received: Seq<Result<Message, Error>>) -> Seq<Reply>
    decreases received.len(),
{
    if received.len() == 0 {
        Seq::empty()
    } else {
        let earlier = replies_in(received.drop_last());
        match received.last() {
            Ok(m) => match reply_of(m) {
                Some(reply) => earlier.push(reply),
                None => earlier,
            },
            Err(_) => earlier,
        }
    }
}

/// What a wake-up decides, `elapsed_ms` after the request went out, where
/// `timed_out` says whether the wait ran out its time.
pub open spec fn poll_outcome(q: QueueView, timed_out: bool, elapsed_ms: u64) -> Poll {
    if q.replies.len() > 0 {
        Poll::Done(reply_outcome(q.replies[0]))
    } else if q.closed || timed_out || elapsed_ms >= REPLY_TIMEOUT_MS {
        Poll::Done(fail(ErrorKind::Timeout))
    } else {
        Poll::Wait((REPLY_TIMEOUT_MS - elapsed_ms) as u64)
    }
}

/// The state after a wake-up: the oldest reply, if any, is taken.
pub open spec fn polled(q: QueueView) -> QueueView {
    if q.replies.len() > 0 {
        QueueView { replies: q.replies.skip(1), closed: q.closed }
    } else {
        q
    }
}

/// The reply queue that the reader fills and the requester drains.
pub struct ControllerState {
    replies: VecDeque<Reply>,
    closed: bool,
}

impl View for ControllerState {
    type V = QueueView;

    closed spec fn view(&self) -> QueueView {
        QueueView { replies: self.replies@, closed: self.closed }
    }
}

impl ControllerState {
    pub fn new() -> (r: ControllerState)
        ensures
            r@.replies == Seq::<Reply>::empty(),
            !r@.closed,
    {
        ControllerState { replies: VecDeque::new(), closed: false }
    }

    /// Whether the reader has stopped for good.
    pub fn is_closed(&self) -> (r: bool)
        ensures
            r == self@.closed,
    {
        self.closed
    }

    /// Starts a request to `node_id`: drops the replies left from earlier
    /// requests and returns the message to transmit.
    pub fn begin_request(&mut self, node_id: NodeId, command: Command) -> (r: SendData)
        ensures
            final(self)@ == begun(old(self)@),
            r == (SendData {
                destination: node_id,
                command,
                callback_id: CALLBACK_ID,
                packet_options: DEFAULT_PACKET_OPTIONS,
            }),
    {
        loop
            invariant
                self.closed == old(self).closed,
            ensures
                self.closed == old(self).closed,
                self.replies@.len() == 0,
            decreases self.replies@.len(),
        {
            if self.replies.pop_front().is_none() {
                break;
            }
        }
        proof {
            assert(self@.replies =~= Seq::<Reply>::empty());
        }
        SendData::new(node_id, command, CALLBACK_ID)
    }

    /// Decides a wake-up of the requester, `elapsed_ms` after its request went
    /// out; `timed_out` says whether the wait ran out its time.
    pub fn poll(&mut self, timed_out: bool, elapsed_ms: u64) -> (r: Poll)
        ensures
            r == poll_outcome(old(self)@, timed_out, elapsed_ms),
            final(self)@ == polled(old(self)@),
    {
        match self.replies.pop_front() {
            Some(reply) => {
                proof {
                    assert(self@ == polled(old(self)@));
                }
                match reply {
                    Reply::Ack => Poll::Done(Ok(())),
                    Reply::Nack => Poll::Done(Err(Error::new(ErrorKind::Nack))),
                    Reply::Cancel => Poll::Done(Err(Error::new(ErrorKind::Cancel))),
                }
            },
            None => {
                if self.closed || timed_out || elapsed_ms >= REPLY_TIMEOUT_MS {
                    Poll::Done(Err(Error::new(ErrorKind::Timeout)))
                } else {
                    Poll::Wait(REPLY_TIMEOUT_MS - elapsed_ms)
                }
            },
        }
    }

    /// Takes what the driver received and says what the reader does next.
    pub fn deliver(&mut self, received: Result<Message, Error>) -> (r: ReaderAction)
        ensures
            final(self)@ == delivered(old(self)@, received),
            r == reader_action(received),
    {
        match received {
            Ok(Message::Ack(_)) => {
                self.replies.push_back(Reply::Ack);
                ReaderAction::Notify
            },
            Ok(Message::Nack(_)) => {
                self.replies.push_back(Reply::Nack);
                ReaderAction::Notify
            },
            Ok(Message::Cancel(_)) => {
                self.replies.push_back(Reply::Cancel);
                ReaderAction::Notify
            },
            Ok(_) => ReaderAction::SendAck,
            Err(e) => {
                if e.kind == ErrorKind::Timeout {
                    ReaderAction::Idle
                } else {
                    self.closed = true;
                    ReaderAction::Stop
                }
            },
        }
    }

    /// Takes the outcome of the reader's `Ack` to a frame: the reader stops
    /// for good when it could not be sent.
    pub fn ack_sent(&mut self, sent: Result<(), Error>) -> (r: ReaderAction)
        ensures
            sent is Ok ==> r == ReaderAction::Idle && final(self)@ == old(self)@,
            sent is Err ==> r == ReaderAction::Stop && final(self)@ == (QueueView {
                replies: old(self)@.replies,
                closed: true,
            }),
    {
        match sent {
            Ok(()) => ReaderAction::Idle,
            Err(_) => {
                self.closed = true;
                ReaderAction::Stop
            },
        }
    }
}

proof fn lemma_delivered_all_replies(q: QueueView, received: Seq<Result<Message, Error>>)
    ensures
        delivered_all(q, received).replies == q.replies + replies_in(received),
    decreases received.len(),
{
    if received.len() == 0 {
        assert(q.replies + Seq::<Reply>::empty() =~= q.replies);
    } else {
        lemma_delivered_all_replies(q, received.drop_last());
        let earlier = replies_in(received.drop_last());
        match received.last() {
            Ok(m) => match reply_of(m) {
                Some(reply) => {
                    assert((q.replies + earlier).push(reply) =~= q.replies + earlier.push(reply));
                },
                None => {},
            },
            Err(_) => {},
        }
    }
}

/// Replies left over from earlier requests never decide a later one. Whatever the
/// queue held and whatever the reader handed over before the next request began,
/// at the requester's next wake-up the queue holds exactly the replies received
/// since: when there is one the first of them decides the request, and when there
/// is none the request waits on or times out.
pub proof fn lemma_stale_replies_discarded(
    q: QueueView,
    stale: Seq<Result<Message, Error>>,
    fresh: Seq<Result<Message, Error>>,
    timed_out: bool,
    elapsed_ms: u64,
)
    ensures
        ({
            let at_wake = delivered_all(begun(delivered_all(q, stale)), fresh);
            &&& at_wake.replies == replies_in(fresh)
            &&& replies_in(fresh).len() > 0 ==> poll_outcome(at_wake, timed_out, elapsed_ms)
                == Poll::Done(reply_outcome(replies_in(fresh)[0]))
            &&& replies_in(fresh).len() == 0 ==> poll_outcome(at_wake, timed_out, elapsed_ms)
                is Wait || poll_outcome(at_wake, timed_out, elapsed_ms) == Poll::Done(
                fail::<()>(ErrorKind::Timeout),
            )
        }),
{
    let start = begun(delivered_all(q, stale));
    lemma_delivered_all_replies(start, fresh);
    assert(start.replies + replies_in(fresh) =~= replies_in(fresh));
}

} // verus!
