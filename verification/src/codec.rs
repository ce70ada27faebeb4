//! The message codec: a header followed by an opaque payload, to and from the
//! bytes of one frame.

use crate::buf::{as_slice, bytes_of};
use crate::error::{DecodeError, EncodeError};
use crate::event::EventKind;
use crate::header::{
    header_bytes, lemma_header_round_trip, parse_header, MessageHeader, MessageType, HEADER_LEN,
};
use bytes::BytesMut;
use vstd::prelude::*;

verus! {

/// The identifier under which a request and its response travel.
pub type RequestId = u64;

/// A call on its way out: its header and the payload bytes of its arguments.
#[derive(Debug, Clone)]
pub struct LibvirtRequest {
    pub header: MessageHeader,
    pub payload: BytesMut,
}

/// A message that came in: its header and the payload bytes behind it.
#[derive(Debug, Clone)]
pub struct LibvirtResponse {
    pub header: MessageHeader,
    pub payload: BytesMut,
}

/// What a message says: its header and the bytes of its payload.
pub ghost struct Message {
    pub header: MessageHeader,
    pub payload: Seq<u8>,
}

impl View for LibvirtRequest {
    type V = Message;

    open spec fn view(&self) -> Message {
        Message { header: self.header, payload: bytes_of(self.payload) }
    }
}

impl View for LibvirtResponse {
    type V = Message;

    open spec fn view(&self) -> Message {
        Message { header: self.header, payload: bytes_of(self.payload) }
    }
}

/// The serial that carries `id` on the wire: its low 32 bits.
pub open spec fn serial_of(id: RequestId) -> u32 {
    (id as int % 0x1_0000_0000) as u32
}

/// The bytes of the frame body that carries `msg` under `id`: the header with
/// its serial replaced, then the payload unchanged.
pub open spec fn encoded(id: RequestId, msg: Message) -> Seq<u8> {
    header_bytes(MessageHeader { serial: serial_of(id), ..msg.header }) + msg.payload
}

/// What arrives when `msg` travels under `id`: the low 32 bits of the
/// identifier, as identifier and as serial, and the rest of `msg` as it was.
pub open spec fn carried(id: RequestId, msg: Message) -> (RequestId, Message) {
    (
        serial_of(id) as RequestId,
        Message {
            header: MessageHeader { serial: serial_of(id), ..msg.header },
            payload: msg.payload,
        },
    )
}

/// Whether a message is short enough for a frame's length prefix to declare.
pub open spec fn fits_frame(msg: Message) -> bool {
    HEADER_LEN + msg.payload.len() <= u32::MAX
}

/// Whether the procedure of `header` is one the codec lets pass. The
/// procedure of an event names its kind, and has to name a kind known here.
/// The procedure of any other message is passed on as it is: which calls
/// exist is not decided here.
pub open spec fn recognized(header: MessageHeader) -> bool {
    header.type_ == MessageType::Event ==> EventKind::of_procedure(header.proc_) is Some
}

/// Why `msg` cannot be encoded, if it cannot: its header is not recognized,
/// or it is too long for a frame.
pub open spec fn encode_error(msg: Message) -> Option<EncodeError> {
    if !recognized(msg.header) {
        Some(EncodeError::UnknownProcedure)
    } else if !fits_frame(msg) {
        Some(EncodeError::FrameTooLarge)
    } else {
        None
    }
}

/// The message a frame body holds and the identifier it answers to, or why the
/// body is no message: it is too short for a header, or its header holds a
/// type, status or procedure that is not recognized.
pub open spec fn decoded(body: Seq<u8>) -> Result<(RequestId, Message), DecodeError> {
    match parse_header(body) {
        Err(e) => Err(e),
        Ok(header) => if !recognized(header) {
            Err(DecodeError::UnknownProcedure)
        } else {
            Ok(
                (
                    header.serial as RequestId,
                    Message { header, payload: body.subrange(HEADER_LEN as int, body.len() as int) },
                ),
            )
        },
    }
}

/// Decoding what was encoded under an identifier of 32 bits gives back that
/// identifier as the serial, every other header field as it was, and the
/// payload byte for byte. This holds of every message that `encode` accepts.
pub proof fn lemma_encode_decode_round_trip(id: RequestId, msg: Message)
    requires
        id <= u32::MAX,
        encode_error(msg) is None,
    ensures
        decoded(encoded(id, msg)) == Ok::<(RequestId, Message), DecodeError>(
            (
                id,
                Message {
                    header: MessageHeader { serial: id as u32, ..msg.header },
                    payload: msg.payload,
                },
            ),
        ),
{
    lemma_encode_decode(id, msg);
}

/// Decoding what was encoded under any identifier gives back the low 32 bits
/// of the identifier, as serial and as identifier, and the rest unchanged.
pub proof fn lemma_encode_decode(id: RequestId, msg: Message)
    requires
        recognized(msg.header),
    ensures
        decoded(encoded(id, msg)) == Ok::<(RequestId, Message), DecodeError>(carried(id, msg)),
{
    lemma_encoded_layout(id, msg);
}

/// What was encoded is a header's length longer than the payload, starts
/// with the header under the serial of the identifier, and ends with the
/// payload.
pub proof fn lemma_encoded_layout(id: RequestId, msg: Message)
    ensures
        encoded(id, msg).len() == HEADER_LEN + msg.payload.len(),
        parse_header(encoded(id, msg)) == Ok::<MessageHeader, DecodeError>(carried(id, msg).1.header),
        encoded(id, msg).subrange(HEADER_LEN as int, encoded(id, msg).len() as int) == msg.payload,
{
    let header = MessageHeader { serial: serial_of(id), ..msg.header };
    lemma_header_round_trip(header, msg.payload);
    let body = encoded(id, msg);
    assert(body.subrange(HEADER_LEN as int, body.len() as int) =~= msg.payload);
}

/// The length of the frame body that carries a payload of `payload_len`
/// bytes behind its header, if a frame can be that long.
pub fn body_len(payload_len: usize) -> (res: Result<u32, EncodeError>)
    ensures
        res is Ok <==> HEADER_LEN + payload_len <= u32::MAX,
        res matches Ok(n) ==> n == HEADER_LEN + payload_len,
        res matches Err(e) ==> e == EncodeError::FrameTooLarge,
{
    if payload_len > 0xffff_ffff - HEADER_LEN {
        Err(EncodeError::FrameTooLarge)
    } else {
        Ok((HEADER_LEN + payload_len) as u32)
    }
}

/// Whether the procedure of `header` is one the codec lets pass.
pub fn is_recognized(header: &MessageHeader) -> (res: bool)
    ensures
        res == recognized(*header),
{
    match header.type_ {
        MessageType::Event => EventKind::from_procedure(header.proc_).is_some(),
        _ => true,
    }
}

/// The codec of the protocol's messages.
pub struct LibvirtCodec;

impl LibvirtCodec {
    /// Serializes a request behind what `buf` holds: the header, its serial
    /// overwritten with the low 32 bits of the identifier, then the payload.
    /// A request whose header is not recognized, or that is too long for one
    /// frame, is turned away and `buf` left as it was.
    pub fn encode(&mut self, msg: (RequestId, LibvirtRequest), buf: &mut BytesMut) -> (res: Result<
        (),
        EncodeError,
    >)
        ensures
            match encode_error(msg.1@) {
                None => res is Ok && bytes_of(*final(buf)) == bytes_of(*old(buf)) + encoded(
                    msg.0,
                    msg.1@,
                ),
                Some(e) => res == Err::<(), EncodeError>(e) && bytes_of(*final(buf)) == bytes_of(
                    *old(buf),
                ),
            },
    {
        let id: RequestId = msg.0;
        let mut req = msg.1;
        if !is_recognized(&req.header) {
            return Err(EncodeError::UnknownProcedure);
        }
        let _ = body_len(req.payload.len())?;
        req.header.serial = (id % 0x1_0000_0000) as u32;
        let mut head: Vec<u8> = Vec::new();
        req.header.pack(&mut head);
        buf.extend_from_slice(head.as_slice());
        buf.extend_from_slice(as_slice(&req.payload));
        assert(bytes_of(*buf) =~= bytes_of(*old(buf)) + encoded(msg.0, msg.1@));
        Ok(())
    }

    /// Parses the message that one complete frame body holds. On success the
    /// payload is split off and `buf` keeps the header's bytes; on failure
    /// `buf` is left as it was. The procedure of an event has to name a kind
    /// of event known here; the procedure of any other message is passed on
    /// unchecked.
    pub fn decode(&mut self, buf: &mut BytesMut) -> (res: Result<
        Option<(RequestId, LibvirtResponse)>,
        DecodeError,
    >)
        ensures
            match decoded(bytes_of(*old(buf))) {
                Ok(m) => res matches Ok(Some(r)) && r.0 == m.0 && r.1@ == m.1 && bytes_of(
                    *final(buf),
                ) == bytes_of(*old(buf)).subrange(0, HEADER_LEN as int),
                Err(e) => res == Err::<Option<(RequestId, LibvirtResponse)>, DecodeError>(e)
                    && bytes_of(*final(buf)) == bytes_of(*old(buf)),
            },
    {
        let header = MessageHeader::unpack(as_slice(buf))?;
        if !is_recognized(&header) {
            return Err(DecodeError::UnknownProcedure);
        }
        let payload = buf.split_off(HEADER_LEN);
        Ok(Some((header.serial as RequestId, LibvirtResponse { header, payload })))
    }
}

} // verus!
