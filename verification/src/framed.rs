//! Frame layer and codec joined: bytes in, messages out, and the reverse.
//! The transport owns two buffers and does no I/O: the owner of the
//! connection feeds it what was read and writes out what it has queued.

use crate::buf::{as_slice, bytes_of};
use crate::codec::{
    decoded, encode_error, encoded, fits_frame, lemma_encoded_layout, serial_of, LibvirtCodec,
    LibvirtRequest, LibvirtResponse, Message, RequestId,
};
use crate::error::{DecodeError, TransportError};
use crate::frame::{
    after_first_frame, declared_len, first_frame, frame_ready, framed, has_frame,
    lemma_frame_round_trip, read_frame, write_frame,
};
use crate::header::{parse_header, MessageHeader, HEADER_LEN};
use bytes::BytesMut;
use vstd::prelude::*;

verus! {

/// Whether a step could be made now.
#[derive(Debug)]
pub enum Async<T> {
    /// It was made, with this result.
    Ready(T),
    /// It has to wait.
    NotReady,
}

/// What a read attempt is answered with.
pub type Polled = Result<Async<Option<(RequestId, LibvirtResponse)>>, TransportError>;

/// The state of a framed transport.
pub ghost struct FramedState {
    /// Bytes received and not yet consumed.
    pub inbound: Seq<u8>,
    /// Bytes queued and not yet written out.
    pub outbound: Seq<u8>,
    /// Whether the input has ended.
    pub at_end: bool,
    /// The error that ended reading, if one did.
    pub failure: Option<TransportError>,
}

/// What a read attempt finds.
pub ghost enum Inbound {
    /// A message, and the identifier it answers to.
    Message(RequestId, Message),
    /// Not yet a whole frame.
    NotReady,
    /// The clean end of the input.
    Finished,
    /// An error, which ends reading.
    Failed(TransportError),
}

impl FramedState {
    /// The state of a transport that has neither received nor queued
    /// anything.
    pub open spec fn initial() -> FramedState {
        FramedState {
            inbound: Seq::<u8>::empty(),
            outbound: Seq::<u8>::empty(),
            at_end: false,
            failure: None,
        }
    }

    /// This state once reading has failed with `error`.
    pub open spec fn failed(self, error: TransportError) -> FramedState {
        FramedState { failure: Some(error), ..self }
    }

    /// This state with the frame that carries `msg` under `id` queued behind
    /// what is queued already.
    pub open spec fn queued(self, id: RequestId, msg: Message) -> FramedState {
        FramedState { outbound: self.outbound + framed(encoded(id, msg)), ..self }
    }

    /// This state with the frames of `msgs` queued one after the other.
    pub open spec fn queued_all(self, msgs: Seq<(RequestId, Message)>) -> FramedState
        decreases msgs.len(),
    {
        if msgs.len() == 0 {
            self
        } else {
            self.queued_all(msgs.drop_last()).queued(msgs.last().0, msgs.last().1)
        }
    }

    /// This state with its first frame taken off the input.
    pub open spec fn advanced(self) -> FramedState {
        FramedState { inbound: after_first_frame(self.inbound), ..self }
    }

    /// One read attempt: the state it leaves and what it finds. After a
    /// failure it finds that failure again. Otherwise a whole frame at the
    /// front is taken off and decoded; without one, the attempt waits while
    /// the input is open, finishes when it ended on a frame boundary, and
    /// fails when it ended inside a frame.
    pub open spec fn read_step(self) -> (FramedState, Inbound) {
        match self.failure {
            Some(error) => (self, Inbound::Failed(error)),
            None => if frame_ready(self.inbound) {
                match decoded(first_frame(self.inbound)) {
                    Ok(m) => (self.advanced(), Inbound::Message(m.0, m.1)),
                    Err(e) => (
                        self.advanced().failed(TransportError::Decode(e)),
                        Inbound::Failed(TransportError::Decode(e)),
                    ),
                }
            } else if !self.at_end {
                (self, Inbound::NotReady)
            } else if self.inbound.len() == 0 {
                (self, Inbound::Finished)
            } else {
                (
                    self.failed(TransportError::TruncatedFrame),
                    Inbound::Failed(TransportError::TruncatedFrame),
                )
            },
        }
    }
}

/// Whether the answer `res` of a read attempt says what `found` says.
pub open spec fn answers(res: Polled, found: Inbound) -> bool {
    match found {
        Inbound::Message(id, m) => res matches Ok(Async::Ready(Some(r))) && r.0 == id && r.1@ == m,
        Inbound::NotReady => res matches Ok(Async::NotReady),
        Inbound::Finished => res matches Ok(Async::Ready(None)),
        Inbound::Failed(e) => res matches Err(x) && x == e,
    }
}

/// Once the input has ended cleanly, every read attempt finds the end and
/// leaves the state as it is: the end is reported again and again, never an
/// error.
pub proof fn lemma_clean_end_repeats(s: FramedState)
    requires
        s.failure is None,
        s.at_end,
        s.inbound.len() == 0,
    ensures
        s.read_step() == (s, Inbound::Finished),
{
}

/// A whole frame that declares fewer bytes than a header takes makes the next
/// read attempt fail with a decode error; the attempt does not wait for more.
pub proof fn lemma_short_frame_fails(s: FramedState)
    requires
        s.failure is None,
        frame_ready(s.inbound),
        declared_len(s.inbound) < HEADER_LEN,
    ensures
        s.read_step().1 == Inbound::Failed(TransportError::Decode(DecodeError::ShortHeader)),
        s.read_step().0.failure == Some(TransportError::Decode(DecodeError::ShortHeader)),
{
}

/// The bytes of the frames that carry `bodies`, in order.
pub open spec fn frames(bodies: Seq<Seq<u8>>) -> Seq<u8>
    decreases bodies.len(),
{
    if bodies.len() == 0 {
        Seq::<u8>::empty()
    } else {
        framed(bodies[0]) + frames(bodies.skip(1))
    }
}

/// The frame bodies that carry `msgs`, in order.
pub open spec fn bodies_of(msgs: Seq<(RequestId, Message)>) -> Seq<Seq<u8>> {
    Seq::new(msgs.len(), |i: int| encoded(msgs[i].0, msgs[i].1))
}

/// The bytes of one more frame come behind those of the frames before it.
pub proof fn lemma_frames_push(bodies: Seq<Seq<u8>>, body: Seq<u8>)
    ensures
        frames(bodies.push(body)) == frames(bodies) + framed(body),
    decreases bodies.len(),
{
    let pushed = bodies.push(body);
    if bodies.len() == 0 {
        assert(pushed[0] == body);
        assert(pushed.skip(1).len() == 0);
        assert(frames(pushed.skip(1)) =~= Seq::<u8>::empty());
        assert(frames(pushed) =~= frames(bodies) + framed(body));
    } else {
        lemma_frames_push(bodies.skip(1), body);
        assert(pushed[0] == bodies[0]);
        assert(pushed.skip(1) =~= bodies.skip(1).push(body));
        assert(frames(pushed) =~= frames(bodies) + framed(body));
    }
}

/// Requests queued one after the other leave the transport as one frame
/// each, in the order of submission, behind what was queued before; no frame
/// is reordered, merged or lost.
pub proof fn lemma_sends_in_order(s: FramedState, msgs: Seq<(RequestId, Message)>)
    ensures
        s.queued_all(msgs) == (FramedState {
            outbound: s.outbound + frames(bodies_of(msgs)),
            ..s
        }),
    decreases msgs.len(),
{
    if msgs.len() == 0 {
        assert(s.outbound + frames(bodies_of(msgs)) =~= s.outbound);
    } else {
        let front = msgs.drop_last();
        lemma_sends_in_order(s, front);
        lemma_frames_push(bodies_of(front), encoded(msgs.last().0, msgs.last().1));
        assert(bodies_of(msgs) =~= bodies_of(front).push(encoded(msgs.last().0, msgs.last().1)));
        assert(s.queued_all(msgs).outbound =~= s.outbound + frames(bodies_of(msgs)));
    }
}

/// Behind `i` frames of a sequence come the frames of the rest of it, and
/// the first of these carries the body at `i`.
pub proof fn lemma_frame_at(bodies: Seq<Seq<u8>>, rest: Seq<u8>, i: int)
    requires
        0 <= i < bodies.len(),
        forall|j: int| 0 <= j < bodies.len() ==> (#[trigger] bodies[j]).len() <= u32::MAX,
    ensures
        frame_ready(frames(bodies.skip(i)) + rest),
        first_frame(frames(bodies.skip(i)) + rest) == bodies[i],
        after_first_frame(frames(bodies.skip(i)) + rest) == frames(bodies.skip(i + 1)) + rest,
{
    let tail = bodies.skip(i);
    assert(tail[0] == bodies[i]);
    assert(tail.skip(1) =~= bodies.skip(i + 1));
    lemma_frame_round_trip(bodies[i], frames(bodies.skip(i + 1)) + rest);
    assert(frames(tail) + rest =~= framed(bodies[i]) + (frames(bodies.skip(i + 1)) + rest));
}

/// Each frame of requests queued in order carries its request under the
/// serial of its own identifier: the frame at `i` holds the header at `i`
/// with the low 32 bits of the identifier at `i` for its serial, and behind
/// it the payload at `i` byte for byte.
pub proof fn lemma_sent_frame_carries_serial(msgs: Seq<(RequestId, Message)>, rest: Seq<u8>, i: int)
    requires
        0 <= i < msgs.len(),
        forall|j: int| 0 <= j < msgs.len() ==> fits_frame(#[trigger] msgs[j].1),
    ensures
        frame_ready(frames(bodies_of(msgs).skip(i)) + rest),
        parse_header(first_frame(frames(bodies_of(msgs).skip(i)) + rest)) == Ok::<
            MessageHeader,
            DecodeError,
        >(MessageHeader { serial: serial_of(msgs[i].0), ..msgs[i].1.header }),
        first_frame(frames(bodies_of(msgs).skip(i)) + rest).skip(HEADER_LEN as int)
            == msgs[i].1.payload,
{
    let bodies = bodies_of(msgs);
    assert forall|j: int| 0 <= j < bodies.len() implies (#[trigger] bodies[j]).len()
        <= u32::MAX by {
        lemma_encoded_layout(msgs[j].0, msgs[j].1);
        assert(fits_frame(msgs[j].1));
    }
    lemma_frame_at(bodies, rest, i);
    lemma_encoded_layout(msgs[i].0, msgs[i].1);
}

/// After a failure every read attempt reports that failure and consumes
/// nothing.
pub proof fn lemma_failure_is_final(s: FramedState, error: TransportError)
    requires
        s.failure == Some(error),
    ensures
        s.read_step() == (s, Inbound::Failed(error)),
{
}

/// Frame layer and codec over a pair of buffers.
pub struct FramedTransport {
    inbound: BytesMut,
    outbound: BytesMut,
    eof: bool,
    failure: Option<TransportError>,
    codec: LibvirtCodec,
}

impl View for FramedTransport {
    type V = FramedState;

    closed spec fn view(&self) -> FramedState {
        FramedState {
            inbound: bytes_of(self.inbound),
            outbound: bytes_of(self.outbound),
            at_end: self.eof,
            failure: self.failure,
        }
    }
}

impl FramedTransport {
    /// A transport that has neither received nor queued anything.
    pub fn new(codec: LibvirtCodec) -> (t: FramedTransport)
        ensures
            t@ == FramedState::initial(),
    {
        let t = FramedTransport {
            inbound: BytesMut::new(),
            outbound: BytesMut::new(),
            eof: false,
            failure: None,
            codec,
        };
        assert(t@.inbound =~= Seq::<u8>::empty());
        assert(t@.outbound =~= Seq::<u8>::empty());
        t
    }

    /// Takes in bytes read from the connection.
    pub fn feed(&mut self, data: &[u8])
        ensures
            final(self)@ == (FramedState { inbound: old(self)@.inbound + data@, ..old(self)@ }),
    {
        self.inbound.extend_from_slice(data);
    }

    /// Records that the connection has signalled the end of its input.
    pub fn end_of_input(&mut self)
        ensures
            final(self)@ == (FramedState { at_end: true, ..old(self)@ }),
    {
        self.eof = true;
    }

    /// Records that reading has failed with `error`, unless it had failed
    /// before.
    pub fn fail(&mut self, error: TransportError)
        ensures
            final(self)@ == if old(self)@.failure is None {
                old(self)@.failed(error)
            } else {
                old(self)@
            },
    {
        if self.failure.is_none() {
            self.failure = Some(error);
        }
    }

    /// Whether reading has failed.
    pub fn has_failed(&self) -> (res: bool)
        ensures
            res == self@.failure is Some,
    {
        self.failure.is_some()
    }

    /// Whether a whole frame is waiting to be read.
    pub fn has_frame(&self) -> (res: bool)
        ensures
            res == frame_ready(self@.inbound),
    {
        has_frame(&self.inbound)
    }

    /// One read attempt: the next message, if a whole frame has arrived.
    pub fn poll(&mut self) -> (res: Polled)
        ensures
            final(self)@ == old(self)@.read_step().0,
            answers(res, old(self)@.read_step().1),
    {
        if let Some(error) = self.failure {
            return Err(error);
        }
        match read_frame(&mut self.inbound) {
            Some(frame) => {
                let mut frame = frame;
                match self.codec.decode(&mut frame) {
                    Ok(pkt) => Ok(Async::Ready(pkt)),
                    Err(e) => {
                        self.failure = Some(TransportError::Decode(e));
                        Err(TransportError::Decode(e))
                    },
                }
            },
            None => {
                if !self.eof {
                    Ok(Async::NotReady)
                } else if self.inbound.len() == 0 {
                    Ok(Async::Ready(None))
                } else {
                    self.failure = Some(TransportError::TruncatedFrame);
                    Err(TransportError::TruncatedFrame)
                }
            },
        }
    }

    /// Encodes a request under its identifier and queues it as one frame
    /// behind what is queued already. A request that cannot be encoded is
    /// turned away, and that call alone fails: nothing is queued and the
    /// transport stays usable.
    pub fn start_send(&mut self, item: (RequestId, LibvirtRequest)) -> (res: Result<
        (),
        TransportError,
    >)
        ensures
            match encode_error(item.1@) {
                None => res is Ok && final(self)@ == old(self)@.queued(item.0, item.1@),
                Some(e) => final(self)@ == old(self)@ && res == Err::<(), TransportError>(
                    TransportError::Encode(e),
                ),
            },
    {
        let mut body = BytesMut::new();
        match self.codec.encode(item, &mut body) {
            Ok(()) => {},
            Err(e) => { return Err(TransportError::Encode(e)); },
        }
        assert(bytes_of(body) =~= encoded(item.0, item.1@));
        match write_frame(as_slice(&body), &mut self.outbound) {
            Ok(()) => Ok(()),
            Err(e) => Err(TransportError::Encode(e)),
        }
    }

    /// The bytes queued for the connection, first to last.
    pub fn pending_output(&self) -> (out: &[u8])
        ensures
            out@ == self@.outbound,
    {
        as_slice(&self.outbound)
    }

    /// Records that the first `n` queued bytes were written to the
    /// connection, or all of them if fewer are queued.
    pub fn consume_output(&mut self, n: usize)
        ensures
            final(self)@ == (FramedState {
                outbound: if n <= old(self)@.outbound.len() {
                    old(self)@.outbound.subrange(n as int, old(self)@.outbound.len() as int)
                } else {
                    Seq::<u8>::empty()
                },
                ..old(self)@
            }),
    {
        let queued: usize = self.outbound.len();
        let written: usize = if n <= queued { n } else { queued };
        let _ = self.outbound.split_to(written);
        assert(self@.outbound =~= if n <= old(self)@.outbound.len() {
            old(self)@.outbound.subrange(n as int, old(self)@.outbound.len() as int)
        } else {
            Seq::<u8>::empty()
        });
    }

    /// Whether everything queued has been written out.
    pub fn poll_complete(&self) -> (res: Async<()>)
        ensures
            res is Ready <==> self@.outbound.len() == 0,
    {
        if self.outbound.len() == 0 {
            Async::Ready(())
        } else {
            Async::NotReady
        }
    }

    /// Whether the connection may be shut down: only once everything queued
    /// has been written out.
    pub fn close(&self) -> (res: Async<()>)
        ensures
            res is Ready <==> self@.outbound.len() == 0,
    {
        self.poll_complete()
    }
}

} // verus!
