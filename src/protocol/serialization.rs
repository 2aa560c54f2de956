//! Reading exact counts of bytes from received input.

use vstd::prelude::*;
use crate::common::{Error, ErrorKind};
use crate::protocol::bits::PREAMBLE_FRAME;

verus! {

/// Hands out the bytes of a received input in exact counts, front to back.
pub struct Reader {
    data: Vec<u8>,
    position: usize,
}

impl Reader {
    #[verifier::type_invariant]
    spec fn inv(self) -> bool {
        self.position <= self.data.len()
    }

    /// The bytes not read yet.
    pub closed spec fn remaining(self) -> Seq<u8> {
        self.data@.subrange(self.position as int, self.data@.len() as int)
    }

    /// The bytes read so far.
    pub closed spec fn consumed(self) -> Seq<u8> {
        self.data@.subrange(0, self.position as int)
    }

    pub fn new(data: Vec<u8>) -> (r: Reader)
        ensures
            r.remaining() == data@,
            r.consumed() == Seq::<u8>::empty(),
    {
        let r = Reader { data, position: 0 };
        proof {
            assert(r.remaining() =~= r.data@);
            assert(r.consumed() =~= Seq::<u8>::empty());
        }
        r
    }

    /// The bytes read so far, in order.
    pub fn as_slice(&self) -> (r: &[u8])
        ensures
            r@ == self.consumed(),
    {
        proof {
            use_type_invariant(self);
        }
        vstd::slice::slice_subrange(self.data.as_slice(), 0, self.position)
    }

    /// One byte, or `ShortRead` when the input is used up (and then nothing is read).
    pub fn read_u8(&mut self) -> (r: Result<u8, Error>)
        ensures
            old(self).remaining().len() == 0 ==> r == Err::<u8, Error>(
                Error { kind: ErrorKind::ShortRead },
            ) && *final(self) == *old(self),
            old(self).remaining().len() > 0 ==> r == Ok::<u8, Error>(old(self).remaining()[0])
                && final(self).remaining() == old(self).remaining().skip(1)
                && final(self).consumed() == old(self).consumed().push(
                old(self).remaining()[0],
            ),
    {
        proof {
            use_type_invariant(&*self);
        }
        if self.position < self.data.len() {
            let byte = self.data[self.position];
            self.position = self.position + 1;
            proof {
                assert(self.remaining() =~= old(self).remaining().skip(1));
                assert(self.consumed() =~= old(self).consumed().push(old(self).remaining()[0]));
            }
            Ok(byte)
        } else {
            Err(Error::new(ErrorKind::ShortRead))
        }
    }

    /// Exactly `length` bytes, or `ShortRead` when fewer are left (and then nothing is read).
    pub fn read_slice(&mut self, length: usize) -> (r: Result<Vec<u8>, Error>)
        ensures
            old(self).remaining().len() < length ==> r == Err::<Vec<u8>, Error>(
                Error { kind: ErrorKind::ShortRead },
            ) && *final(self) == *old(self),
            old(self).remaining().len() >= length ==> r is Ok && r->Ok_0@ == old(
                self,
            ).remaining().take(length as int) && final(self).remaining() == old(
                self,
            ).remaining().skip(length as int) && final(self).consumed() == old(self).consumed()
                + old(self).remaining().take(length as int),
    {
        proof {
            use_type_invariant(&*self);
        }
        if self.data.len() - self.position < length {
            return Err(Error::new(ErrorKind::ShortRead));
        }
        let start = self.position;
        let bytes = vstd::slice::slice_to_vec(
            vstd::slice::slice_subrange(self.data.as_slice(), start, start + length),
        );
        self.position = start + length;
        proof {
            assert(bytes@ =~= old(self).remaining().take(length as int));
            assert(self.remaining() =~= old(self).remaining().skip(length as int));
            assert(self.consumed() =~= old(self).consumed() + old(self).remaining().take(
                length as int,
            ));
        }
        Ok(bytes)
    }
}

/// How many bytes the message that `received` begins takes on the wire, as far as
/// its first bytes tell: one for a control byte, and for a frame its preamble, its
/// length byte and the bytes that the length byte counts.
pub open spec fn wire_length(received: Seq<u8>) -> int {
    if received.len() == 0 || received[0] != PREAMBLE_FRAME {
        1
    } else if received.len() < 2 {
        2
    } else {
        2 + received[1]
    }
}

/// How many more bytes must be read before `received` holds a whole message:
/// zero once it does.
pub fn bytes_missing(received: &[u8]) -> (r: usize)
    ensures
        r == (if received@.len() < wire_length(received@) {
            wire_length(received@) - received@.len()
        } else {
            0
        }),
{
    let n = received.len();
    if n == 0 {
        1
    } else if received[0] != PREAMBLE_FRAME {
        0
    } else if n < 2 {
        1
    } else {
        let total = 2 + received[1] as usize;
        if n < total {
            total - n
        } else {
            0
        }
    }
}

} // verus!
