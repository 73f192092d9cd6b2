//! Messages larger than one datagram.
//!
//! A sender cuts the bytes of a message into datagrams of at most `CHUNK`
//! bytes and sends an empty datagram after them. A receiver joins the
//! datagrams it is given until the empty one arrives.

use vstd::prelude::*;
use vstd::slice::{slice_subrange, slice_to_vec};

verus! {

/// The most bytes one datagram carries.
pub const CHUNK: usize = 2048;

/// The size of the buffer into which the client receives one datagram.
pub const BUFFER_LENGTH: usize = 100_000_000;

/// The size of the buffer into which the server receives one request.
pub const SERVER_BUFFER_LENGTH: usize = 256;

/// The number of datagrams that carry `len` bytes.
pub open spec fn chunk_count(len: nat) -> nat {
    ((len + CHUNK - 1) / (CHUNK as int)) as nat
}

/// The bytes of the datagram at position `i`.
pub open spec fn chunk_at(payload: Seq<u8>, i: int) -> Seq<u8> {
    if CHUNK * (i + 1) <= payload.len() {
        payload.subrange(CHUNK * i, CHUNK * (i + 1))
    } else if CHUNK * i <= payload.len() {
        payload.subrange(CHUNK * i, payload.len() as int)
    } else {
        Seq::<u8>::empty()
    }
}

/// The datagrams that carry a message: its bytes in pieces of `CHUNK`
/// bytes, the last one shorter where the length asks for it, and the empty
/// datagram that ends the message.
pub open spec fn datagrams_of(payload: Seq<u8>) -> Seq<Seq<u8>> {
    Seq::new(
        chunk_count(payload.len()) + 1,
        |i: int|
            if i < chunk_count(payload.len()) {
                chunk_at(payload, i)
            } else {
                Seq::<u8>::empty()
            },
    )
}

/// What a receiver has of a message: the bytes so far, and whether the empty
/// datagram has arrived.
pub struct Reassembly {
    pub bytes: Seq<u8>,
    pub complete: bool,
}

/// What a receiver has after one more datagram: nothing changes once the
/// message is complete; the empty datagram completes it; any other is joined
/// to the bytes.
pub open spec fn accepted(before: Reassembly, datagram: Seq<u8>) -> Reassembly {
    if before.complete {
        before
    } else if datagram.len() == 0 {
        Reassembly { bytes: before.bytes, complete: true }
    } else {
        Reassembly { bytes: before.bytes + datagram, complete: false }
    }
}

/// What a receiver has after a run of datagrams, taken first to last.
pub open spec fn received(datagrams: Seq<Seq<u8>>) -> Reassembly
    decreases datagrams.len(),
{
    if datagrams.len() == 0 {
        Reassembly { bytes: Seq::<u8>::empty(), complete: false }
    } else {
        accepted(received(datagrams.drop_last()), datagrams.last())
    }
}

/// The views of the datagrams, one by one.
pub open spec fn datagram_views(datagrams: Seq<Vec<u8>>) -> Seq<Seq<u8>> {
    Seq::new(datagrams.len(), |i: int| datagrams[i]@)
}

/// Cuts the bytes of a message into the datagrams that carry it.
pub fn split_into_datagrams(buf: &[u8]) -> (r: Vec<Vec<u8>>)
    ensures
        datagram_views(r@) == datagrams_of(buf@),
{
    let size = buf.len();
    let mut datagrams: Vec<Vec<u8>> = Vec::new();
    let mut start: usize = 0;
    while start < size
        invariant
            size == buf@.len(),
            start <= size,
            start % CHUNK == 0 || start == size,
            datagrams@.len() == chunk_count(start as nat),
            forall|i: int|
                0 <= i < datagrams@.len() ==> (#[trigger] datagrams@[i])@ == chunk_at(buf@, i),
        decreases size - start,
    {
        let end = if size - start > CHUNK {
            start + CHUNK
        } else {
            size
        };
        let chunk = slice_to_vec(slice_subrange(buf, start, end));
        proof {
            let i = datagrams@.len() as int;
            assert(start == CHUNK * i);
            assert(chunk@ == chunk_at(buf@, i));
        }
        datagrams.push(chunk);
        start = end;
    }
    datagrams.push(Vec::new());
    assert(datagram_views(datagrams@) =~= datagrams_of(buf@));
    datagrams
}

/// Joins the datagrams of one message as they arrive.
pub struct Reassembler {
    buffer: Vec<u8>,
    complete: bool,
}

impl View for Reassembler {
    type V = Reassembly;

    closed spec fn view(&self) -> Reassembly {
        Reassembly { bytes: self.buffer@, complete: self.complete }
    }
}

impl Reassembler {
    /// A receiver that has nothing yet.
    pub fn new() -> (r: Self)
        ensures
            r@ == received(Seq::<Seq<u8>>::empty()),
    {
        Reassembler { buffer: Vec::new(), complete: false }
    }

    /// Takes the next datagram and says whether the message is complete.
    pub fn accept(&mut self, datagram: &[u8]) -> (r: bool)
        ensures
            final(self)@ == accepted(old(self)@, datagram@),
            r == final(self)@.complete,
    {
        if !self.complete {
            if datagram.len() == 0 {
                self.complete = true;
            } else {
                self.buffer.extend_from_slice(datagram);
                assert(self.buffer@ =~= old(self).buffer@ + datagram@);
            }
        }
        self.complete
    }

    /// Whether the empty datagram has arrived.
    pub fn is_complete(&self) -> (r: bool)
        ensures
            r == self@.complete,
    {
        self.complete
    }

    /// The bytes of the message, once it is complete.
    pub fn into_message(self) -> (r: Option<Vec<u8>>)
        ensures
            r is Some <==> self@.complete,
            r is Some ==> r->0@ == self@.bytes,
    {
        if self.complete {
            Some(self.buffer)
        } else {
            None
        }
    }
}

/// Every datagram of a message fits the limit, only the last one is empty,
/// and there is one datagram for every begun `CHUNK` bytes plus the last.
pub proof fn lemma_datagrams_are_bounded(payload: Seq<u8>)
    ensures
        datagrams_of(payload).len() == chunk_count(payload.len()) + 1,
        datagrams_of(payload).last().len() == 0,
        forall|i: int|
            0 <= i < datagrams_of(payload).len() - 1 ==> 0 < (#[trigger] datagrams_of(
                payload,
            )[i]).len() <= CHUNK,
{
}

/// After the first `k` datagrams of a message a receiver holds the first
/// `k` pieces of its bytes and still waits.
pub proof fn lemma_received_prefix(payload: Seq<u8>, k: nat)
    requires
        k <= chunk_count(payload.len()),
    ensures
        received(datagrams_of(payload).take(k as int)) == (Reassembly {
            bytes: if CHUNK * k <= payload.len() {
                payload.take(CHUNK * k)
            } else {
                payload
            },
            complete: false,
        }),
    decreases k,
{
    let all = datagrams_of(payload);
    if k > 0 {
        lemma_received_prefix(payload, (k - 1) as nat);
        let before = all.take(k as int);
        assert(before.drop_last() =~= all.take(k - 1));
        assert(before.last() == chunk_at(payload, k - 1));
        let have = received(before.drop_last());
        let now = received(before);
        assert(now.bytes =~= have.bytes + chunk_at(payload, k - 1));
        if CHUNK * k <= payload.len() {
            assert(now.bytes =~= payload.take(CHUNK * k));
        } else {
            assert(now.bytes =~= payload);
        }
    } else {
        assert(all.take(0) =~= Seq::<Seq<u8>>::empty());
        assert(payload.take(0) =~= Seq::<u8>::empty());
    }
}

/// A message cut into datagrams and joined again is the message, whatever
/// its length: the receiver is complete after the last datagram and holds
/// the bytes that were sent.
pub proof fn lemma_framing_round_trip(payload: Seq<u8>)
    ensures
        received(datagrams_of(payload)) == (Reassembly { bytes: payload, complete: true }),
{
    let all = datagrams_of(payload);
    let count = chunk_count(payload.len());
    lemma_received_prefix(payload, count);
    assert(all.drop_last() =~= all.take(count as int));
    assert(all.last().len() == 0);
    if CHUNK * count <= payload.len() {
        assert(payload.take(CHUNK * count) =~= payload);
    }
}

} // verus!
