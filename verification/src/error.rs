//! The ways in which reading and writing a connection can fail.

use vstd::prelude::*;

verus! {

/// Why the bytes of a frame are not a message.
#[derive(Clone, Copy, Debug, PartialEq, Eq, Structural)]
pub enum DecodeError {
    /// The frame holds fewer bytes than a header.
    ShortHeader,
    /// The header's message type is none of the protocol's.
    UnknownType,
    /// The header's status is none of the protocol's.
    UnknownStatus,
    /// An event names a procedure that is no event kind known here.
    UnknownProcedure,
    /// The payload of an event does not follow the layout of its kind.
    MalformedEvent,
}

/// Why a request could not be serialized.
#[derive(Clone, Copy, Debug, PartialEq, Eq, Structural)]
pub enum EncodeError {
    /// The header is that of an event whose procedure names no event kind
    /// known here.
    UnknownProcedure,
    /// Header and payload together exceed what a length prefix can declare.
    FrameTooLarge,
}

/// A failure of the transport. After any of them the connection is to be
/// given up.
#[derive(Clone, Copy, Debug, PartialEq, Eq, Structural)]
pub enum TransportError {
    /// A frame could not be decoded.
    Decode(DecodeError),
    /// A request could not be encoded.
    Encode(EncodeError),
    /// The input ended inside a frame.
    TruncatedFrame,
    /// A subscriber's channel was closed or turned the event away.
    EventDelivery,
}

} // verus!
