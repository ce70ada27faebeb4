//! Transport core of a client for the libvirt remote protocol.
//!
//! The crate turns a duplex byte stream into correlated request/response
//! pairs. It is written without I/O of its own: the owner of the connection
//! hands received bytes to a [`LibvirtTransport`] and writes out the bytes the
//! transport has queued.
//!
//! The stages, leaf first: [`frame`] cuts the stream into length-prefixed
//! frames, [`codec`] reads and writes the header and payload of one frame,
//! [`framed`] joins the two over a pair of buffers, and [`transport`] sorts
//! what comes in: replies go up, events go to the subscribers registered in
//! the [`router`], stream traffic is dropped.

pub mod buf;
pub mod codec;
pub mod error;
pub mod event;
pub mod frame;
pub mod framed;
pub mod header;
pub mod router;
pub mod transport;
pub mod xdr;

pub use crate::codec::{LibvirtCodec, LibvirtRequest, LibvirtResponse, RequestId};
pub use crate::error::{DecodeError, EncodeError, TransportError};
pub use crate::event::{Domain, DomainEvent, LifecycleMessage};
pub use crate::framed::{Async, FramedTransport, Polled};
pub use crate::header::{MessageHeader, MessageStatus, MessageType};
pub use crate::router::{Delivery, EventRegistry, EventStream, EventTable, LibvirtStream};
pub use crate::transport::{LibvirtProto, LibvirtTransport};
