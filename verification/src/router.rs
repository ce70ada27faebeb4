//! The event router: a table from callback identifier to the sending end of
//! a subscriber's channel, and the shared handle under which transports and
//! subscribers reach it.

use crate::event::DomainEvent;
use futures::sync::mpsc::{Receiver, Sender};
use std::collections::HashMap;
use std::sync::Arc;
use vstd::prelude::*;
use vstd::rwlock::{RwLock, RwLockPredicate};
use vstd::std_specs::hash::group_hash_axioms;

verus! {

broadcast use group_hash_axioms;

/// `futures::sync::mpsc::Sender`, the sending end of a bounded channel. Its
/// state is shared with the receiver and is not modelled.
#[verifier::external_type_specification]
#[verifier::external_body]
#[verifier::reject_recursive_types(T)]
pub struct ExSender<T>(Sender<T>);

/// `futures::sync::mpsc::Receiver`, the receiving end of a bounded channel.
/// It is held and handed on, never read here.
#[verifier::external_type_specification]
#[verifier::external_body]
#[verifier::reject_recursive_types(T)]
pub struct ExReceiver<T>(Receiver<T>);

/// What a channel did with an event offered to it.
#[derive(Clone, Copy, Debug, PartialEq, Eq, Structural)]
pub enum SendOutcome {
    /// The event was queued for the receiver.
    Sent,
    /// The channel had no room and turned the event away.
    Full,
    /// The receiving end is gone.
    Closed,
}

/// What became of an event handed to the router.
#[derive(Clone, Copy, Debug, PartialEq, Eq, Structural)]
pub enum Delivery {
    /// The subscriber's channel took the event.
    Delivered,
    /// Nobody is registered under the callback identifier.
    NotSubscribed,
    /// The subscriber's channel had no room for the event.
    Rejected,
    /// The subscriber's channel is closed.
    Closed,
}

impl Delivery {
    /// What the router answers when a subscriber was found and its channel
    /// answered `outcome`.
    pub open spec fn of_send(outcome: SendOutcome) -> Delivery {
        match outcome {
            SendOutcome::Sent => Delivery::Delivered,
            SendOutcome::Full => Delivery::Rejected,
            SendOutcome::Closed => Delivery::Closed,
        }
    }

    /// Whether the router can give this answer for an event meant for
    /// `callback_id` while `registered` are the callbacks somebody is
    /// registered under: a miss exactly when nobody is registered under
    /// `callback_id`, else what the subscriber's channel made of the event.
    pub open spec fn answers_for(self, registered: Set<i32>, callback_id: i32) -> bool {
        if registered.contains(callback_id) {
            exists|outcome: SendOutcome| self == Delivery::of_send(outcome)
        } else {
            self == Delivery::NotSubscribed
        }
    }

    /// What the router answers when a subscriber was found and its channel
    /// answered `outcome`.
    pub fn from_send(outcome: SendOutcome) -> (res: Delivery)
        ensures
            res == Delivery::of_send(outcome),
    {
        match outcome {
            SendOutcome::Sent => Delivery::Delivered,
            SendOutcome::Full => Delivery::Rejected,
            SendOutcome::Closed => Delivery::Closed,
        }
    }
}

/// `futures::sync::mpsc::Sender::try_send`: one attempt to queue `event`
/// without parking the caller. An event the channel accepts is queued at
/// once, so nothing is left to flush. What comes back depends on the state of
/// the channel, which the receiver changes at any time, so nothing is claimed
/// of it.
#[verifier::external_body]
fn offer(sender: &mut Sender<DomainEvent>, event: DomainEvent) -> SendOutcome {
    match sender.try_send(event) {
        Ok(()) => SendOutcome::Sent,
        Err(e) => if e.is_full() {
            SendOutcome::Full
        } else {
            SendOutcome::Closed
        },
    }
}

/// An event for a callback that nobody is registered under is dropped: the
/// router answers with a miss, whatever the event.
pub proof fn lemma_unregistered_is_a_miss(registered: Set<i32>, callback_id: i32, d: Delivery)
    requires
        !registered.contains(callback_id),
        d.answers_for(registered, callback_id),
    ensures
        d == Delivery::NotSubscribed,
{
}

/// An event for a callback that somebody is registered under is offered to
/// that subscriber's channel: the router's answer is never a miss.
pub proof fn lemma_registered_is_offered(registered: Set<i32>, callback_id: i32, d: Delivery)
    requires
        registered.contains(callback_id),
        d.answers_for(registered, callback_id),
    ensures
        d == Delivery::Delivered || d == Delivery::Rejected || d == Delivery::Closed,
{
}

/// The table of subscribers, keyed by callback identifier.
pub struct EventTable {
    subscribers: HashMap<i32, Sender<DomainEvent>>,
}

impl EventTable {
    /// The callback identifiers somebody is registered under.
    pub closed spec fn registered(&self) -> Set<i32> {
        self.subscribers@.dom()
    }

    /// A table without subscribers.
    pub fn new() -> (table: EventTable)
        ensures
            table.registered() == Set::<i32>::empty(),
    {
        EventTable { subscribers: HashMap::new() }
    }

    /// Whether somebody is registered under `callback_id`.
    pub fn contains(&self, callback_id: i32) -> (res: bool)
        ensures
            res == self.registered().contains(callback_id),
    {
        self.subscribers.contains_key(&callback_id)
    }

    /// Registers `sender` under `callback_id` and hands back the sender it
    /// replaces, if there was one.
    pub fn insert(&mut self, callback_id: i32, sender: Sender<DomainEvent>) -> (previous: Option<
        Sender<DomainEvent>,
    >)
        ensures
            final(self).registered() == old(self).registered().insert(callback_id),
            previous is Some <==> old(self).registered().contains(callback_id),
    {
        self.subscribers.insert(callback_id, sender)
    }

    /// Removes the registration under `callback_id` and hands back its
    /// sender, if there was one.
    pub fn remove(&mut self, callback_id: i32) -> (removed: Option<Sender<DomainEvent>>)
        ensures
            final(self).registered() == old(self).registered().remove(callback_id),
            removed is Some <==> old(self).registered().contains(callback_id),
    {
        self.subscribers.remove(&callback_id)
    }

    /// Looks up `callback_id` and, if somebody is registered under it, offers
    /// `event` to that subscriber's channel once. A miss is no error: the
    /// event is dropped. The registrations stay as they were either way.
    pub fn deliver(&mut self, callback_id: i32, event: DomainEvent) -> (res: Delivery)
        ensures
            final(self).registered() == old(self).registered(),
            res.answers_for(old(self).registered(), callback_id),
    {
        match self.subscribers.remove(&callback_id) {
            None => {
                assert(self.subscribers@ =~= old(self).subscribers@);
                Delivery::NotSubscribed
            },
            Some(sender) => {
                let mut sender = sender;
                let outcome = offer(&mut sender, event);
                self.subscribers.insert(callback_id, sender);
                assert(self.subscribers@.dom() =~= old(self).subscribers@.dom());
                let res = Delivery::from_send(outcome);
                assert(res == Delivery::of_send(outcome));
                res
            },
        }
    }
}

/// The condition under which a table may be stored in the shared registry:
/// none.
pub struct AnyTable;

impl RwLockPredicate<EventTable> for AnyTable {
    open spec fn inv(self, table: EventTable) -> bool {
        true
    }
}

/// `Arc::clone`: another handle to the same shared value.
#[verifier::external_body]
fn share(table: &Arc<RwLock<EventTable, AnyTable>>) -> (res: Arc<RwLock<EventTable, AnyTable>>)
    ensures
        res == *table,
{
    Arc::clone(table)
}

/// A handle to a table of subscribers that transports and subscribers share.
/// Every operation takes the table's lock for the one step it makes.
pub struct EventRegistry {
    table: Arc<RwLock<EventTable, AnyTable>>,
}

impl EventRegistry {
    /// A registry without subscribers.
    pub fn new() -> EventRegistry {
        EventRegistry { table: Arc::new(RwLock::new(EventTable::new(), Ghost(AnyTable))) }
    }

    /// Another handle to the same registry.
    pub fn handle(&self) -> (other: EventRegistry)
        ensures
            other == *self,
    {
        EventRegistry { table: share(&self.table) }
    }

    /// Registers `sender` under `callback_id` and hands back the sender it
    /// replaces, if there was one: `EventTable::insert` under the lock.
    pub fn register(&self, callback_id: i32, sender: Sender<DomainEvent>) -> Option<
        Sender<DomainEvent>,
    > {
        let (mut table, lock) = self.table.acquire_write();
        let previous = table.insert(callback_id, sender);
        lock.release_write(table);
        previous
    }

    /// Removes the registration under `callback_id` and hands back its
    /// sender, if there was one: `EventTable::remove` under the lock.
    pub fn unregister(&self, callback_id: i32) -> Option<Sender<DomainEvent>> {
        let (mut table, lock) = self.table.acquire_write();
        let removed = table.remove(callback_id);
        lock.release_write(table);
        removed
    }

    /// Whether somebody is registered under `callback_id` at the moment of
    /// the call.
    pub fn is_registered(&self, callback_id: i32) -> bool {
        let lock = self.table.acquire_read();
        let found = lock.borrow().contains(callback_id);
        lock.release_read();
        found
    }

    /// Looks up `callback_id` and offers `event` to the subscriber found:
    /// `EventTable::deliver` under the lock, which is held for this one
    /// lookup and send.
    pub fn dispatch(&self, callback_id: i32, event: DomainEvent) -> Delivery {
        let (mut table, lock) = self.table.acquire_write();
        let delivery = table.deliver(callback_id, event);
        lock.release_write(table);
        delivery
    }
}

impl Clone for EventRegistry {
    /// Another handle to the same registry.
    fn clone(&self) -> (other: EventRegistry)
        ensures
            other == *self,
    {
        self.handle()
    }
}

/// The events of one subscription, as they come out of its channel.
#[verifier::reject_recursive_types(T)]
pub struct EventStream<T> {
    pub inner: Receiver<T>,
}

impl<T> EventStream<T> {
    /// Wraps the receiving end of a subscription's channel.
    pub fn new(inner: Receiver<T>) -> (stream: EventStream<T>)
        ensures
            stream.inner == inner,
    {
        EventStream { inner }
    }
}

/// The pieces of one data stream, as they come out of its channel.
#[verifier::reject_recursive_types(T)]
pub struct LibvirtStream<T> {
    pub inner: Receiver<T>,
}

impl<T> LibvirtStream<T> {
    /// Wraps the receiving end of a stream's channel.
    pub fn new(inner: Receiver<T>) -> (stream: LibvirtStream<T>)
        ensures
            stream.inner == inner,
    {
        LibvirtStream { inner }
    }
}

} // verus!
