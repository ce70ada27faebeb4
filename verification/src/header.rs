//! The fixed header that starts every message.

use crate::error::DecodeError;
use crate::xdr::{
    i32_at, i32_be_bytes, lemma_i32_round_trip, lemma_u32_at_subrange, lemma_u32_round_trip,
    read_i32, read_u32, u32_at, u32_be_bytes, xdr_pack_i32, xdr_pack_u32,
};
use vstd::prelude::*;

verus! {

/// Number of bytes the header occupies on the wire.
pub const HEADER_LEN: usize = 24;

/// What a message is, as the header declares it.
#[derive(Clone, Copy, Debug, PartialEq, Eq, Structural)]
pub enum MessageType {
    /// A request from the client.
    Call,
    /// The answer to a call.
    Reply,
    /// An asynchronous event notification.
    Event,
    /// A piece of a bulk data stream.
    Stream,
    /// A call that passes file descriptors.
    CallWithFds,
    /// A reply that passes file descriptors.
    ReplyWithFds,
}

impl MessageType {
    /// The discriminant that stands for this type on the wire.
    pub open spec fn code(self) -> i32 {
        match self {
            MessageType::Call => 0,
            MessageType::Reply => 1,
            MessageType::Event => 2,
            MessageType::Stream => 3,
            MessageType::CallWithFds => 4,
            MessageType::ReplyWithFds => 5,
        }
    }

    /// The type a discriminant stands for, if any.
    pub open spec fn of_code(code: i32) -> Option<MessageType> {
        if code == 0 {
            Some(MessageType::Call)
        } else if code == 1 {
            Some(MessageType::Reply)
        } else if code == 2 {
            Some(MessageType::Event)
        } else if code == 3 {
            Some(MessageType::Stream)
        } else if code == 4 {
            Some(MessageType::CallWithFds)
        } else if code == 5 {
            Some(MessageType::ReplyWithFds)
        } else {
            None
        }
    }

    /// The discriminant that stands for this type on the wire.
    pub fn to_wire(self) -> (code: i32)
        ensures
            code == self.code(),
    {
        match self {
            MessageType::Call => 0,
            MessageType::Reply => 1,
            MessageType::Event => 2,
            MessageType::Stream => 3,
            MessageType::CallWithFds => 4,
            MessageType::ReplyWithFds => 5,
        }
    }

    /// Checked conversion from a discriminant read off the wire.
    pub fn from_wire(code: i32) -> (res: Option<MessageType>)
        ensures
            res == MessageType::of_code(code),
    {
        if code == 0 {
            Some(MessageType::Call)
        } else if code == 1 {
            Some(MessageType::Reply)
        } else if code == 2 {
            Some(MessageType::Event)
        } else if code == 3 {
            Some(MessageType::Stream)
        } else if code == 4 {
            Some(MessageType::CallWithFds)
        } else if code == 5 {
            Some(MessageType::ReplyWithFds)
        } else {
            None
        }
    }
}

/// How a call went, as the header of its reply declares it.
#[derive(Clone, Copy, Debug, PartialEq, Eq, Structural)]
pub enum MessageStatus {
    /// The call succeeded, or the message is no reply.
    Success,
    /// The call failed; the payload describes the error.
    Failure,
    /// More pieces of a stream follow.
    Continue,
}

impl MessageStatus {
    /// The discriminant that stands for this status on the wire.
    pub open spec fn code(self) -> i32 {
        match self {
            MessageStatus::Success => 0,
            MessageStatus::Failure => 1,
            MessageStatus::Continue => 2,
        }
    }

    /// The status a discriminant stands for, if any.
    pub open spec fn of_code(code: i32) -> Option<MessageStatus> {
        if code == 0 {
            Some(MessageStatus::Success)
        } else if code == 1 {
            Some(MessageStatus::Failure)
        } else if code == 2 {
            Some(MessageStatus::Continue)
        } else {
            None
        }
    }

    /// The discriminant that stands for this status on the wire.
    pub fn to_wire(self) -> (code: i32)
        ensures
            code == self.code(),
    {
        match self {
            MessageStatus::Success => 0,
            MessageStatus::Failure => 1,
            MessageStatus::Continue => 2,
        }
    }

    /// Checked conversion from a discriminant read off the wire.
    pub fn from_wire(code: i32) -> (res: Option<MessageStatus>)
        ensures
            res == MessageStatus::of_code(code),
    {
        if code == 0 {
            Some(MessageStatus::Success)
        } else if code == 1 {
            Some(MessageStatus::Failure)
        } else if code == 2 {
            Some(MessageStatus::Continue)
        } else {
            None
        }
    }
}

/// The header of a message: six 32-bit fields, big-endian, in this order.
#[derive(Clone, Copy, Debug, PartialEq, Eq, Structural)]
pub struct MessageHeader {
    /// The program the message belongs to.
    pub prog: u32,
    /// The version of that program.
    pub vers: u32,
    /// The procedure called, or the kind of event.
    pub proc_: u32,
    /// What the message is.
    pub type_: MessageType,
    /// The identifier that pairs a reply with its call.
    pub serial: u32,
    /// How the call went.
    pub status: MessageStatus,
}

/// The bytes that stand for `h` on the wire.
pub open spec fn header_bytes(h: MessageHeader) -> Seq<u8> {
    u32_be_bytes(h.prog) + u32_be_bytes(h.vers) + u32_be_bytes(h.proc_) + i32_be_bytes(
        h.type_.code(),
    ) + u32_be_bytes(h.serial) + i32_be_bytes(h.status.code())
}

/// The header that starts `s`, or why there is none. Bytes behind the header
/// play no part.
pub open spec fn parse_header(s: Seq<u8>) -> Result<MessageHeader, DecodeError> {
    if s.len() < HEADER_LEN {
        Err(DecodeError::ShortHeader)
    } else {
        match MessageType::of_code(i32_at(s, 12)) {
            None => Err(DecodeError::UnknownType),
            Some(type_) => match MessageStatus::of_code(i32_at(s, 20)) {
                None => Err(DecodeError::UnknownStatus),
                Some(status) => Ok(
                    MessageHeader {
                        prog: u32_at(s, 0),
                        vers: u32_at(s, 4),
                        proc_: u32_at(s, 8),
                        type_,
                        serial: u32_at(s, 16),
                        status,
                    },
                ),
            },
        }
    }
}

/// A header's bytes are `HEADER_LEN` long and parse back to the header,
/// whatever follows them.
pub proof fn lemma_header_round_trip(h: MessageHeader, tail: Seq<u8>)
    ensures
        header_bytes(h).len() == HEADER_LEN,
        parse_header(header_bytes(h) + tail) == Ok::<MessageHeader, DecodeError>(h),
{
    let s = header_bytes(h) + tail;
    lemma_u32_round_trip(h.prog);
    lemma_u32_round_trip(h.vers);
    lemma_u32_round_trip(h.proc_);
    lemma_i32_round_trip(h.type_.code());
    lemma_u32_round_trip(h.serial);
    lemma_i32_round_trip(h.status.code());
    assert(s.subrange(0, 4) =~= u32_be_bytes(h.prog));
    assert(s.subrange(4, 8) =~= u32_be_bytes(h.vers));
    assert(s.subrange(8, 12) =~= u32_be_bytes(h.proc_));
    assert(s.subrange(12, 16) =~= i32_be_bytes(h.type_.code()));
    assert(s.subrange(16, 20) =~= u32_be_bytes(h.serial));
    assert(s.subrange(20, 24) =~= i32_be_bytes(h.status.code()));
    lemma_u32_at_subrange(s, 0);
    lemma_u32_at_subrange(s, 4);
    lemma_u32_at_subrange(s, 8);
    lemma_u32_at_subrange(s, 12);
    lemma_u32_at_subrange(s, 16);
    lemma_u32_at_subrange(s, 20);
}

/// A word that the input was too short for is a short header.
fn word_or_short<T>(word: Option<T>) -> (res: Result<T, DecodeError>)
    ensures
        res == match word {
            Some(v) => Ok::<T, DecodeError>(v),
            None => Err::<T, DecodeError>(DecodeError::ShortHeader),
        },
{
    match word {
        Some(v) => Ok(v),
        None => Err(DecodeError::ShortHeader),
    }
}

impl MessageHeader {
    /// Appends the header's bytes to `out`.
    pub fn pack(&self, out: &mut Vec<u8>)
        ensures
            final(out)@ == old(out)@ + header_bytes(*self),
    {
        let _ = xdr_pack_u32(self.prog, out);
        let _ = xdr_pack_u32(self.vers, out);
        let _ = xdr_pack_u32(self.proc_, out);
        let _ = xdr_pack_i32(self.type_.to_wire(), out);
        let _ = xdr_pack_u32(self.serial, out);
        let _ = xdr_pack_i32(self.status.to_wire(), out);
        assert(out@ =~= old(out)@ + header_bytes(*self));
    }

    /// Reads the header that starts `input`.
    pub fn unpack(input: &[u8]) -> (res: Result<MessageHeader, DecodeError>)
        ensures
            res == parse_header(input@),
    {
        if input.len() < HEADER_LEN {
            return Err(DecodeError::ShortHeader);
        }
        let prog: u32 = word_or_short(read_u32(input, 0))?;
        let vers: u32 = word_or_short(read_u32(input, 4))?;
        let proc_: u32 = word_or_short(read_u32(input, 8))?;
        let type_code: i32 = word_or_short(read_i32(input, 12))?;
        let serial: u32 = word_or_short(read_u32(input, 16))?;
        let status_code: i32 = word_or_short(read_i32(input, 20))?;
        let type_ = match MessageType::from_wire(type_code) {
            Some(t) => t,
            None => { return Err(DecodeError::UnknownType); },
        };
        let status = match MessageStatus::from_wire(status_code) {
            Some(s) => s,
            None => { return Err(DecodeError::UnknownStatus); },
        };
        Ok(MessageHeader { prog, vers, proc_, type_, serial, status })
    }
}

} // verus!
