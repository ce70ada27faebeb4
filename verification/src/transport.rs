//! The demultiplexing transport: replies go up to the caller, events go to
//! their subscribers, stream traffic is dropped.

use crate::buf::as_slice;
use crate::codec::{
    decoded, encode_error, LibvirtCodec, LibvirtRequest, LibvirtResponse, Message, RequestId,
};
use crate::error::{DecodeError, TransportError};
use crate::event::{
    decode_lifecycle, parse_lifecycle, EventKind, LifecycleMessage, LifecycleView,
};
use crate::frame::{declared_len, first_frame, frame_ready, framed, lemma_frame_round_trip};
use crate::framed::{
    answers, frames, lemma_frame_at, lemma_short_frame_fails, Async, FramedState, FramedTransport,
    Inbound, Polled,
};
use crate::header::{MessageType, HEADER_LEN};
use crate::router::{Delivery, EventRegistry};
use vstd::prelude::*;

verus! {

/// The number of frames one read attempt consumes without surfacing a
/// message before it yields.
pub const POLL_BUDGET: usize = 32;

/// What the transport takes a message for.
pub ghost enum Classified {
    /// An ordinary message, which goes up to the caller.
    Reply,
    /// Stream traffic, which is dropped.
    Stream,
    /// An event, which goes to the subscriber of its callback.
    Event(LifecycleView),
    /// An event that could not be decoded.
    Invalid(DecodeError),
}

/// What the transport takes `m` for: by its type an event or stream traffic,
/// else a reply; an event must name a known kind and carry a payload of that
/// kind's layout.
pub open spec fn classify(m: Message) -> Classified {
    match m.header.type_ {
        MessageType::Event => match EventKind::of_procedure(m.header.proc_) {
            None => Classified::Invalid(DecodeError::UnknownProcedure),
            Some(EventKind::DomainLifecycle) => match parse_lifecycle(m.payload) {
                None => Classified::Invalid(DecodeError::MalformedEvent),
                Some(lifecycle) => Classified::Event(lifecycle),
            },
        },
        MessageType::Stream => Classified::Stream,
        _ => Classified::Reply,
    }
}

/// Whether `buf` starts with a frame that is consumed without surfacing: a
/// whole frame that holds an event or stream traffic.
pub open spec fn silent(buf: Seq<u8>) -> bool {
    frame_ready(buf) && match decoded(first_frame(buf)) {
        Ok(m) => classify(m.1) is Event || classify(m.1) is Stream,
        Err(_) => false,
    }
}

/// Whether `buf` starts with a whole frame that holds an event.
pub open spec fn starts_with_event(buf: Seq<u8>) -> bool {
    frame_ready(buf) && match decoded(first_frame(buf)) {
        Ok(m) => classify(m.1) is Event,
        Err(_) => false,
    }
}

/// One read attempt on a state whose input does not start with a silent
/// frame: as `FramedState::read_step`, but a message that is an undecodable
/// event is a failure.
pub open spec fn surface_step(s: FramedState) -> (FramedState, Inbound) {
    let step = s.read_step();
    match step.1 {
        Inbound::Message(id, m) => match classify(m) {
            Classified::Invalid(e) => (
                step.0.failed(TransportError::Decode(e)),
                Inbound::Failed(TransportError::Decode(e)),
            ),
            _ => step,
        },
        _ => step,
    }
}

/// Whether a read attempt that may still consume `budget` frames silently,
/// made in state `s`, can answer `res` and leave `after`.
///
/// After a failure the attempt reports it again. A silent frame at the front
/// is consumed while the budget lasts: if it is an event and handing it to
/// its subscriber fails, the attempt fails with that; else the attempt goes
/// on behind the frame with one less to spend. With the budget used up and a
/// frame waiting, the attempt yields and consumes nothing. In every other
/// case it ends as a read attempt on the frame layer does, a reply going up
/// as it was decoded.
pub open spec fn poll_spec(s: FramedState, budget: nat, res: Polled, after: FramedState) -> bool
    decreases budget,
{
    if s.failure is Some {
        after == s && answers(res, s.read_step().1)
    } else if silent(s.inbound) && budget > 0 {
        ||| (starts_with_event(s.inbound) && answers(
            res,
            Inbound::Failed(TransportError::EventDelivery),
        ) && after == s.advanced().failed(TransportError::EventDelivery))
        ||| poll_spec(s.advanced(), (budget - 1) as nat, res, after)
    } else if frame_ready(s.inbound) && budget == 0 {
        answers(res, Inbound::NotReady) && after == s
    } else {
        after == surface_step(s).0 && answers(res, surface_step(s).1)
    }
}

/// Whether `body` is the body of a frame that goes up to the caller: short
/// enough for a frame, and a message that is neither event nor stream
/// traffic.
pub open spec fn is_reply_body(body: Seq<u8>) -> bool {
    body.len() <= u32::MAX && match decoded(body) {
        Ok(m) => classify(m.1) is Reply,
        Err(_) => false,
    }
}

/// A reply at the front of the input is what a read attempt answers: the
/// identifier and the message exactly as decoded from the frame, with the
/// frame consumed and nothing else changed.
pub proof fn lemma_reply_surfaces(
    s: FramedState,
    body: Seq<u8>,
    rest: Seq<u8>,
    budget: nat,
    res: Polled,
    after: FramedState,
)
    requires
        s.failure is None,
        s.inbound == framed(body) + rest,
        is_reply_body(body),
        budget > 0,
        poll_spec(s, budget, res, after),
    ensures
        answers(res, Inbound::Message(decoded(body)->Ok_0.0, decoded(body)->Ok_0.1)),
        after == (FramedState { inbound: rest, ..s }),
{
    lemma_frame_round_trip(body, rest);
}

/// Replies are surfaced in the order of their arrival. With the frames of
/// `bodies` from the one at `i` on at the front of the input, a read attempt
/// answers the message of the frame at `i`, unmodified, and leaves the frames
/// behind it; so attempt after attempt answers the frames one by one, first
/// to last.
pub proof fn lemma_replies_in_order(
    s: FramedState,
    bodies: Seq<Seq<u8>>,
    rest: Seq<u8>,
    i: int,
    budget: nat,
    res: Polled,
    after: FramedState,
)
    requires
        s.failure is None,
        0 <= i < bodies.len(),
        forall|j: int| 0 <= j < bodies.len() ==> is_reply_body(#[trigger] bodies[j]),
        s.inbound == frames(bodies.skip(i)) + rest,
        budget > 0,
        poll_spec(s, budget, res, after),
    ensures
        answers(res, Inbound::Message(decoded(bodies[i])->Ok_0.0, decoded(bodies[i])->Ok_0.1)),
        after == (FramedState { inbound: frames(bodies.skip(i + 1)) + rest, ..s }),
{
    assert forall|j: int| 0 <= j < bodies.len() implies (#[trigger] bodies[j]).len()
        <= u32::MAX by {
        assert(is_reply_body(bodies[j]));
    }
    lemma_frame_at(bodies, rest, i);
    assert(is_reply_body(bodies[i]));
}

/// Stream traffic is dropped: with a stream frame at the front of the input,
/// a read attempt answers what it answers on the input behind that frame,
/// with one frame less to spend.
pub proof fn lemma_stream_is_dropped(
    s: FramedState,
    body: Seq<u8>,
    rest: Seq<u8>,
    budget: nat,
    res: Polled,
    after: FramedState,
)
    requires
        s.failure is None,
        s.inbound == framed(body) + rest,
        body.len() <= u32::MAX,
        decoded(body) is Ok,
        decoded(body)->Ok_0.1.header.type_ == MessageType::Stream,
        budget > 0,
        poll_spec(s, budget, res, after),
    ensures
        poll_spec(FramedState { inbound: rest, ..s }, (budget - 1) as nat, res, after),
{
    lemma_frame_round_trip(body, rest);
    assert(silent(s.inbound));
    assert(!starts_with_event(s.inbound));
}

/// An event is consumed: with an event frame at the front of the input, a
/// read attempt either fails because handing the event to its subscriber
/// failed, or answers what it answers on the input behind that frame, with
/// one frame less to spend.
pub proof fn lemma_event_is_consumed(
    s: FramedState,
    body: Seq<u8>,
    rest: Seq<u8>,
    budget: nat,
    res: Polled,
    after: FramedState,
)
    requires
        s.failure is None,
        s.inbound == framed(body) + rest,
        body.len() <= u32::MAX,
        decoded(body) is Ok,
        classify(decoded(body)->Ok_0.1) is Event,
        budget > 0,
        poll_spec(s, budget, res, after),
    ensures
        (answers(res, Inbound::Failed(TransportError::EventDelivery)) && after == (FramedState {
            inbound: rest,
            ..s
        }).failed(TransportError::EventDelivery)) || poll_spec(
            FramedState { inbound: rest, ..s },
            (budget - 1) as nat,
            res,
            after,
        ),
{
    lemma_frame_round_trip(body, rest);
    assert(silent(s.inbound));
}

/// What a read attempt surfaces is a reply: never an event, never stream
/// traffic.
pub proof fn lemma_surfaced_is_reply(s: FramedState, budget: nat, res: Polled, after: FramedState)
    requires
        poll_spec(s, budget, res, after),
    ensures
        res matches Ok(Async::Ready(Some(r))) ==> classify(r.1@) is Reply,
    decreases budget,
{
    if s.failure is None && silent(s.inbound) && budget > 0 {
        if poll_spec(s.advanced(), (budget - 1) as nat, res, after) {
            lemma_surfaced_is_reply(s.advanced(), (budget - 1) as nat, res, after);
        }
    }
}

/// A read attempt that fails leaves the failure on record, so that every
/// later attempt fails the same way: an error ends reading for good.
pub proof fn lemma_error_is_recorded(s: FramedState, budget: nat, res: Polled, after: FramedState)
    requires
        poll_spec(s, budget, res, after),
        res is Err,
    ensures
        after.failure == Some(res->Err_0),
    decreases budget,
{
    if s.failure is None && silent(s.inbound) && budget > 0 {
        if poll_spec(s.advanced(), (budget - 1) as nat, res, after) {
            lemma_error_is_recorded(s.advanced(), (budget - 1) as nat, res, after);
        }
    }
}

/// After a failure a read attempt reports that failure again and consumes
/// nothing.
pub proof fn lemma_failure_ends_reading(
    s: FramedState,
    error: TransportError,
    budget: nat,
    res: Polled,
    after: FramedState,
)
    requires
        s.failure == Some(error),
        poll_spec(s, budget, res, after),
    ensures
        answers(res, Inbound::Failed(error)),
        after == s,
{
}

/// On the clean end of the input a read attempt reports the end and leaves
/// the state as it is, so that every further attempt reports the end again;
/// none reports an error.
pub proof fn lemma_clean_end(s: FramedState, budget: nat, res: Polled, after: FramedState)
    requires
        s.failure is None,
        s.at_end,
        s.inbound.len() == 0,
        poll_spec(s, budget, res, after),
    ensures
        answers(res, Inbound::Finished),
        after == s,
{
}

/// A whole frame that declares fewer bytes than a header takes makes the read
/// attempt fail with a decode error; the attempt does not wait for more.
pub proof fn lemma_short_frame(s: FramedState, budget: nat, res: Polled, after: FramedState)
    requires
        s.failure is None,
        frame_ready(s.inbound),
        declared_len(s.inbound) < HEADER_LEN,
        budget > 0,
        poll_spec(s, budget, res, after),
    ensures
        answers(res, Inbound::Failed(TransportError::Decode(DecodeError::ShortHeader))),
        after.failure == Some(TransportError::Decode(DecodeError::ShortHeader)),
{
    lemma_short_frame_fails(s);
}

/// What a read attempt makes of the router's answer for an event: the frame
/// counts as consumed when the event was delivered or nobody is subscribed,
/// and the attempt fails when the subscriber's channel is closed or turned
/// the event away.
pub open spec fn outcome_of(delivery: Delivery) -> Result<bool, TransportError> {
    match delivery {
        Delivery::Delivered => Ok(true),
        Delivery::NotSubscribed => Ok(true),
        Delivery::Rejected => Err(TransportError::EventDelivery),
        Delivery::Closed => Err(TransportError::EventDelivery),
    }
}

/// What a read attempt makes of the router's answer for an event.
pub fn event_outcome(delivery: Delivery) -> (res: Result<bool, TransportError>)
    ensures
        res == outcome_of(delivery),
{
    match delivery {
        Delivery::Delivered => Ok(true),
        Delivery::NotSubscribed => Ok(true),
        Delivery::Rejected => Err(TransportError::EventDelivery),
        Delivery::Closed => Err(TransportError::EventDelivery),
    }
}

/// An event that nobody is subscribed to does not fail the read attempt: it
/// counts as consumed, like one that was delivered.
pub proof fn lemma_unregistered_event_is_dropped(registered: Set<i32>, callback_id: i32, d: Delivery)
    requires
        !registered.contains(callback_id),
        d.answers_for(registered, callback_id),
    ensures
        outcome_of(d) == Ok::<bool, TransportError>(true),
{
}

/// The event a message carries, decoded: `None` for a message that is no
/// event, and an error for an event of an unknown kind or with a payload that
/// does not follow the layout of its kind.
pub fn decode_event(resp: &LibvirtResponse) -> (res: Result<Option<LifecycleMessage>, DecodeError>)
    ensures
        match classify(resp@) {
            Classified::Event(lifecycle) => res matches Ok(Some(msg)) && msg@ == lifecycle,
            Classified::Invalid(e) => res == Err::<Option<LifecycleMessage>, DecodeError>(e),
            _ => res == Ok::<Option<LifecycleMessage>, DecodeError>(None),
        },
{
    match resp.header.type_ {
        MessageType::Event => {},
        _ => { return Ok(None); },
    }
    match EventKind::from_procedure(resp.header.proc_) {
        None => Err(DecodeError::UnknownProcedure),
        Some(EventKind::DomainLifecycle) => {
            match decode_lifecycle(as_slice(&resp.payload)) {
                Err(e) => Err(e),
                Ok(msg) => Ok(Some(msg)),
            }
        },
    }
}

/// The transport of one connection.
pub struct LibvirtTransport {
    inner: FramedTransport,
    events: EventRegistry,
}

impl View for LibvirtTransport {
    type V = FramedState;

    closed spec fn view(&self) -> FramedState {
        self.inner@
    }
}

impl LibvirtTransport {
    /// The registry this transport routes events through.
    pub closed spec fn registry(&self) -> EventRegistry {
        self.events
    }

    /// A transport that has neither received nor queued anything, and that
    /// routes events through `events`.
    pub fn new(events: EventRegistry) -> (t: LibvirtTransport)
        ensures
            t@ == FramedState::initial(),
            t.registry() == events,
    {
        LibvirtTransport { inner: FramedTransport::new(LibvirtCodec), events }
    }

    /// Takes in bytes read from the connection.
    pub fn feed(&mut self, data: &[u8])
        ensures
            final(self)@ == (FramedState { inbound: old(self)@.inbound + data@, ..old(self)@ }),
    {
        self.inner.feed(data);
    }

    /// Records that the connection has signalled the end of its input.
    pub fn end_of_input(&mut self)
        ensures
            final(self)@ == (FramedState { at_end: true, ..old(self)@ }),
    {
        self.inner.end_of_input();
    }

    /// Whether a whole frame is waiting to be read.
    pub fn has_frame(&self) -> (res: bool)
        ensures
            res == frame_ready(self@.inbound),
    {
        self.inner.has_frame()
    }

    /// Handles `resp` if it is an event: decodes it as `decode_event` does
    /// and hands the event to the router, under the callback identifier of
    /// its payload. Answers whether the message was an event and is thereby
    /// consumed, as `event_outcome` makes it of the router's answer.
    pub fn process_event(&self, resp: &LibvirtResponse) -> (res: Result<bool, TransportError>)
        ensures
            match classify(resp@) {
                Classified::Event(_) => res == Ok::<bool, TransportError>(true) || res == Err::<
                    bool,
                    TransportError,
                >(TransportError::EventDelivery),
                Classified::Invalid(e) => res == Err::<bool, TransportError>(
                    TransportError::Decode(e),
                ),
                _ => res == Ok::<bool, TransportError>(false),
            },
    {
        match decode_event(resp) {
            Err(e) => Err(TransportError::Decode(e)),
            Ok(None) => Ok(false),
            Ok(Some(msg)) => event_outcome(self.events.dispatch(msg.callback_id, msg.event)),
        }
    }

    /// Whether `resp` is stream traffic, which is dropped.
    pub fn process_stream(&self, resp: &LibvirtResponse) -> (res: bool)
        ensures
            res == (resp@.header.type_ == MessageType::Stream),
    {
        match resp.header.type_ {
            MessageType::Stream => true,
            _ => false,
        }
    }

    /// One read attempt: consumes events and stream traffic until a reply
    /// comes up, the input runs out, or `POLL_BUDGET` frames were consumed.
    /// After a failure every attempt reports that failure.
    pub fn poll(&mut self) -> (res: Polled)
        ensures
            poll_spec(old(self)@, POLL_BUDGET as nat, res, final(self)@),
            res matches Ok(Async::Ready(Some(r))) ==> classify(r.1@) is Reply,
    {
        let ghost before = self@;
        if self.inner.has_failed() {
            return self.inner.poll();
        }
        let mut consumed: usize = 0;
        loop
            invariant
                before == old(self)@,
                self@.failure is None,
                consumed <= POLL_BUDGET,
                forall|r: Polled, a: FramedState|
                    poll_spec(self@, (POLL_BUDGET - consumed) as nat, r, a) ==> poll_spec(
                        before,
                        POLL_BUDGET as nat,
                        r,
                        a,
                    ),
            decreases POLL_BUDGET - consumed,
        {
            let ghost mid = self@;
            let ghost budget = (POLL_BUDGET - consumed) as nat;
            if consumed >= POLL_BUDGET && self.inner.has_frame() {
                let res: Polled = Ok(Async::NotReady);
                assert(poll_spec(mid, budget, res, self@));
                return res;
            }
            let polled: Polled = self.inner.poll();
            match polled {
                Ok(Async::Ready(Some(pkt))) => {
                    let id: RequestId = pkt.0;
                    let resp: LibvirtResponse = pkt.1;
                    assert(frame_ready(mid.inbound));
                    assert(consumed < POLL_BUDGET);
                    match self.process_event(&resp) {
                        Err(e) => {
                            self.inner.fail(e);
                            let res: Polled = Err(e);
                            assert(poll_spec(mid, budget, res, self@));
                            return res;
                        },
                        Ok(true) => {
                            assert(silent(mid.inbound));
                            consumed = consumed + 1;
                            assert forall|r: Polled, a: FramedState|
                                poll_spec(
                                    self@,
                                    (POLL_BUDGET - consumed) as nat,
                                    r,
                                    a,
                                ) implies poll_spec(before, POLL_BUDGET as nat, r, a) by {
                                assert(poll_spec(mid, budget, r, a));
                            }
                            continue ;
                        },
                        Ok(false) => {},
                    }
                    if self.process_stream(&resp) {
                        assert(silent(mid.inbound));
                        consumed = consumed + 1;
                        assert forall|r: Polled, a: FramedState|
                            poll_spec(
                                self@,
                                (POLL_BUDGET - consumed) as nat,
                                r,
                                a,
                            ) implies poll_spec(before, POLL_BUDGET as nat, r, a) by {
                            assert(poll_spec(mid, budget, r, a));
                        }
                        continue ;
                    }
                    let res: Polled = Ok(Async::Ready(Some((id, resp))));
                    assert(poll_spec(mid, budget, res, self@));
                    return res;
                },
                other => {
                    assert(poll_spec(mid, budget, other, self@));
                    return other;
                },
            }
        }
    }

    /// Encodes a request under its identifier and queues it as one frame
    /// behind what is queued already. A request that cannot be encoded is
    /// turned away, and that call alone fails: nothing is queued and the
    /// transport stays usable.
    pub fn start_send(&mut self, item: (RequestId, LibvirtRequest)) -> (res: Result<
        (),
        TransportError,
    >)
        ensures
            match encode_error(item.1@) {
                None => res is Ok && final(self)@ == old(self)@.queued(item.0, item.1@),
                Some(e) => final(self)@ == old(self)@ && res == Err::<(), TransportError>(
                    TransportError::Encode(e),
                ),
            },
    {
        self.inner.start_send(item)
    }

    /// The bytes queued for the connection, first to last.
    pub fn pending_output(&self) -> (out: &[u8])
        ensures
            out@ == self@.outbound,
    {
        self.inner.pending_output()
    }

    /// Records that the first `n` queued bytes were written to the
    /// connection, or all of them if fewer are queued.
    pub fn consume_output(&mut self, n: usize)
        ensures
            final(self)@ == (FramedState {
                outbound: if n <= old(self)@.outbound.len() {
                    old(self)@.outbound.subrange(n as int, old(self)@.outbound.len() as int)
                } else {
                    Seq::<u8>::empty()
                },
                ..old(self)@
            }),
    {
        self.inner.consume_output(n);
    }

    /// Whether everything queued has been written out.
    pub fn poll_complete(&self) -> (res: Async<()>)
        ensures
            res is Ready <==> self@.outbound.len() == 0,
    {
        self.inner.poll_complete()
    }

    /// Whether the connection may be shut down: only once everything queued
    /// has been written out.
    pub fn close(&self) -> (res: Async<()>)
        ensures
            res is Ready <==> self@.outbound.len() == 0,
    {
        self.inner.close()
    }
}

/// The binder of the protocol: it holds the registry that the transports of
/// its connections route events through.
#[derive(Clone)]
pub struct LibvirtProto {
    pub events: EventRegistry,
}

impl LibvirtProto {
    /// A binder whose transports route events through `events`.
    pub fn new(events: EventRegistry) -> (proto: LibvirtProto)
        ensures
            proto.events == events,
    {
        LibvirtProto { events }
    }

    /// Assembles the transport for a connection that was just established:
    /// frame layer, codec and demultiplexer, bound to a handle on this
    /// binder's registry.
    pub fn bind_transport(&self) -> (t: LibvirtTransport)
        ensures
            t@ == FramedState::initial(),
            t.registry() == self.events,
    {
        LibvirtTransport::new(self.events.handle())
    }
}

} // verus!
