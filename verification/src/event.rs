//! Event notifications: the kinds known here and the layout of their
//! payloads.

use crate::error::DecodeError;
use crate::xdr::{
    i32_at, padded_len, read_i32, read_u32, string_data, string_fits, string_wire_len, u32_at,
    xdr_unpack_opaque16, xdr_unpack_string,
};
use vstd::prelude::*;
use vstd::utf8::{decode_utf8, valid_utf8};

verus! {

/// The procedure number under which lifecycle events of a domain arrive at a
/// registered callback.
pub const PROC_DOMAIN_EVENT_CALLBACK_LIFECYCLE: u32 = 318;

/// Number of bytes of a domain's UUID.
pub const UUID_LEN: usize = 16;

/// The kinds of event whose payload this crate can decode.
#[derive(Clone, Copy, Debug, PartialEq, Eq, Structural)]
pub enum EventKind {
    /// A domain was started, stopped, suspended and the like.
    DomainLifecycle,
}

impl EventKind {
    /// The kind of event a procedure number names, if any.
    pub open spec fn of_procedure(proc_: u32) -> Option<EventKind> {
        if proc_ == PROC_DOMAIN_EVENT_CALLBACK_LIFECYCLE {
            Some(EventKind::DomainLifecycle)
        } else {
            None
        }
    }

    /// Checked conversion from the procedure number of an event's header.
    pub fn from_procedure(proc_: u32) -> (res: Option<EventKind>)
        ensures
            res == EventKind::of_procedure(proc_),
    {
        if proc_ == PROC_DOMAIN_EVENT_CALLBACK_LIFECYCLE {
            Some(EventKind::DomainLifecycle)
        } else {
            None
        }
    }
}

/// The domain an event is about.
#[derive(Clone, Debug, PartialEq, Eq)]
pub struct Domain {
    pub name: String,
    pub uuid: [u8; 16],
    pub id: i32,
}

/// A lifecycle event as a subscriber receives it.
#[derive(Clone, Debug, PartialEq, Eq)]
pub struct DomainEvent {
    pub domain: Domain,
    pub event: i32,
    pub detail: i32,
}

/// The payload of a lifecycle event: the callback it is meant for, and the
/// event.
#[derive(Clone, Debug, PartialEq, Eq)]
pub struct LifecycleMessage {
    pub callback_id: i32,
    pub event: DomainEvent,
}

/// What a `Domain` holds.
pub ghost struct DomainView {
    pub name: Seq<char>,
    pub uuid: Seq<u8>,
    pub id: i32,
}

/// What a `DomainEvent` holds.
pub ghost struct DomainEventView {
    pub domain: DomainView,
    pub event: i32,
    pub detail: i32,
}

/// What a `LifecycleMessage` holds.
pub ghost struct LifecycleView {
    pub callback_id: i32,
    pub event: DomainEventView,
}

impl View for Domain {
    type V = DomainView;

    open spec fn view(&self) -> DomainView {
        DomainView { name: self.name@, uuid: self.uuid@, id: self.id }
    }
}

impl View for DomainEvent {
    type V = DomainEventView;

    open spec fn view(&self) -> DomainEventView {
        DomainEventView { domain: self.domain@, event: self.event, detail: self.detail }
    }
}

impl View for LifecycleMessage {
    type V = LifecycleView;

    open spec fn view(&self) -> LifecycleView {
        LifecycleView { callback_id: self.callback_id, event: self.event@ }
    }
}

/// Offset at which the domain's name starts in a lifecycle payload, behind
/// the callback identifier.
pub const NAME_OFFSET: usize = 4;

/// Number of bytes behind the name: the UUID and three words.
pub const LIFECYCLE_TAIL_LEN: usize = 28;

/// The lifecycle message that starts `p`, if `p` follows the layout: the
/// callback identifier, the domain's name as a string, its UUID, its
/// identifier, the event and its detail. Bytes behind the message play no
/// part.
pub open spec fn parse_lifecycle(p: Seq<u8>) -> Option<LifecycleView> {
    let name_field = p.subrange(NAME_OFFSET as int, p.len() as int);
    if p.len() < NAME_OFFSET || !string_fits(name_field) || !valid_utf8(string_data(name_field)) {
        None
    } else {
        let tail = NAME_OFFSET + string_wire_len(name_field);
        if p.len() < tail + LIFECYCLE_TAIL_LEN {
            None
        } else {
            Some(
                LifecycleView {
                    callback_id: i32_at(p, 0),
                    event: DomainEventView {
                        domain: DomainView {
                            name: decode_utf8(string_data(name_field)),
                            uuid: p.subrange(tail as int, tail + UUID_LEN),
                            id: i32_at(p, tail + 16),
                        },
                        event: i32_at(p, tail + 20),
                        detail: i32_at(p, tail + 24),
                    },
                },
            )
        }
    }
}

/// Decodes the payload of a lifecycle event.
pub fn decode_lifecycle(payload: &[u8]) -> (res: Result<LifecycleMessage, DecodeError>)
    ensures
        match parse_lifecycle(payload@) {
            Some(m) => res matches Ok(r) && r@ == m,
            None => res == Err::<LifecycleMessage, DecodeError>(DecodeError::MalformedEvent),
        },
{
    let callback_id: i32 = match read_i32(payload, 0) {
        Some(v) => v,
        None => { return Err(DecodeError::MalformedEvent); },
    };
    let declared: u32 = match read_u32(payload, NAME_OFFSET) {
        Some(n) => n,
        None => { return Err(DecodeError::MalformedEvent); },
    };
    let ghost name_field = payload@.subrange(NAME_OFFSET as int, payload@.len() as int);
    assert(u32_at(name_field, 0) == u32_at(payload@, NAME_OFFSET as int));
    let padded: u64 = (declared as u64 + 3) / 4 * 4;
    assert(padded == padded_len(declared as nat));
    if ((payload.len() - NAME_OFFSET - 4) as u64) < padded {
        return Err(DecodeError::MalformedEvent);
    }
    let field: &[u8] = &payload[NAME_OFFSET..payload.len()];
    assert(field@ == name_field);
    let (name, used) = match xdr_unpack_string(field) {
        Ok(r) => r,
        Err(_) => { return Err(DecodeError::MalformedEvent); },
    };
    let tail: usize = NAME_OFFSET + used;
    if payload.len() - tail < LIFECYCLE_TAIL_LEN {
        return Err(DecodeError::MalformedEvent);
    }
    let uuid: [u8; 16] = match xdr_unpack_opaque16(&payload[tail..tail + UUID_LEN]) {
        Ok(r) => r.0,
        Err(_) => { return Err(DecodeError::MalformedEvent); },
    };
    assert(uuid@ =~= payload@.subrange(tail as int, tail + UUID_LEN));
    let id: i32 = match read_i32(payload, tail + 16) {
        Some(v) => v,
        None => { return Err(DecodeError::MalformedEvent); },
    };
    let event: i32 = match read_i32(payload, tail + 20) {
        Some(v) => v,
        None => { return Err(DecodeError::MalformedEvent); },
    };
    let detail: i32 = match read_i32(payload, tail + 24) {
        Some(v) => v,
        None => { return Err(DecodeError::MalformedEvent); },
    };
    Ok(LifecycleMessage { callback_id, event: DomainEvent { domain: Domain { name, uuid, id }, event, detail } })
}

} // verus!
