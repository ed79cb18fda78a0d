//! The progress relay: a broadcast channel with bounded history that turns
//! the engine's callback-style progress signal into a stream a consumer can
//! poll. The channel pointer is swappable process-wide state; re-initializing
//! it is legal at any time, and subscribers of the replaced channel keep
//! draining it but receive no further events.
use vstd::prelude::*;
use vstd::string::StringExecFns;

use crate::progress::EventModel;
use crate::progress::ProgressEvent;
use crate::progress::SendStatus;
use crate::progress::bridge_event_spec;
use crate::progress::event_json;
use crate::progress::remap_note_progress;
use crate::progress::wf_event;

verus! {

#[verifier::external_type_specification]
#[verifier::external_body]
#[verifier::reject_recursive_types(T)]
pub struct ExBroadcastSender<T>(tokio::sync::broadcast::Sender<T>);

#[verifier::external_type_specification]
#[verifier::external_body]
#[verifier::reject_recursive_types(T)]
pub struct ExBroadcastReceiver<T>(tokio::sync::broadcast::Receiver<T>);

/// How many events a slow poller may lag behind before losing history.
pub const CHANNEL_DEPTH: usize = 100;

/// Relies on tokio::sync::broadcast::channel: a fresh channel whose sender
/// and first subscriber are returned; it panics only on a capacity of zero
/// or above half of usize's range, which the precondition rules out.
#[verifier::external_body]
fn new_channel(capacity: usize) -> (r: (
    tokio::sync::broadcast::Sender<String>,
    tokio::sync::broadcast::Receiver<String>,
))
    requires
        1 <= capacity <= usize::MAX / 2,
{
    tokio::sync::broadcast::channel(capacity)
}

/// Relies on tokio::sync::broadcast::Sender::send: on success it returns
/// the number of subscribers the value was queued for, at least one; it
/// fails exactly when the channel currently has no subscriber.
#[verifier::external_body]
fn channel_send(tx: &tokio::sync::broadcast::Sender<String>, text: String) -> (r: Option<usize>)
    ensures
        r is Some ==> r->0 >= 1,
{
    match tx.send(text) {
        Ok(count) => Some(count),
        Err(_) => None,
    }
}

/// Relies on tokio::sync::broadcast::Sender::subscribe: a new subscriber
/// that sees every event published after this call.
#[verifier::external_body]
fn channel_subscribe(tx: &tokio::sync::broadcast::Sender<String>) -> (rx:
    tokio::sync::broadcast::Receiver<String>) {
    tx.subscribe()
}

/// The relay: an optional sender slot plus the history of every event
/// published through it, against which the send flow's ordering
/// guarantees are stated.
pub struct Relay {
    sender: Option<tokio::sync::broadcast::Sender<String>>,
    log: Ghost<Seq<EventModel>>,
    generation: Ghost<nat>,
}

impl Relay {
    /// Whether a channel exists yet.
    pub closed spec fn initialized(&self) -> bool {
        self.sender is Some
    }

    /// Every event published through this relay, oldest first.
    pub closed spec fn published(&self) -> Seq<EventModel> {
        self.log@
    }

    /// Which channel is current: bumped exactly when a fresh channel is
    /// installed, so re-initialization provably replaces the old channel
    /// rather than keeping it.
    pub closed spec fn channel_generation(&self) -> nat {
        self.generation@
    }

    /// A relay with no channel yet: the first publish or poll creates one.
    pub fn new() -> (r: Relay)
        ensures
            !r.initialized(),
            r.published() == Seq::<EventModel>::empty(),
            r.channel_generation() == 0,
    {
        Relay { sender: None, log: Ghost(Seq::empty()), generation: Ghost(0) }
    }

    /// Creates a fresh channel, discarding any previous one. Subscribers of
    /// the old channel keep draining it and then see it closed; they never
    /// deadlock on the swap.
    pub fn initialize(&mut self) -> (r: String)
        ensures
            final(self).initialized(),
            final(self).published() == old(self).published(),
            final(self).channel_generation() == old(self).channel_generation() + 1,
            r@ == "OK"@,
    {
        let (tx, _rx) = new_channel(CHANNEL_DEPTH);
        self.sender = Some(tx);
        self.generation = Ghost(self.generation@ + 1);
        String::from_str("OK")
    }

    /// Publishes one event, creating the channel first if none exists yet,
    /// so an out-of-order caller sequence cannot strand the producer.
    /// Returns how many subscribers the event reached: zero is success,
    /// broadcasting with no listeners is not an error.
    pub fn publish(&mut self, event: &ProgressEvent) -> (delivered: usize)
        requires
            wf_event(event@),
        ensures
            final(self).initialized(),
            final(self).published() == old(self).published().push(event@),
            final(self).channel_generation() == if old(self).initialized() {
                old(self).channel_generation()
            } else {
                old(self).channel_generation() + 1
            },
    {
        if self.sender.is_none() {
            let (tx, _rx) = new_channel(CHANNEL_DEPTH);
            self.sender = Some(tx);
            self.generation = Ghost(self.generation@ + 1);
        }
        let text = event_json(event);
        let delivered = match channel_send(self.sender.as_ref().unwrap(), text) {
            Option::Some(count) => count,
            Option::None => 0,
        };
        self.log = Ghost(self.log@.push(event@));
        delivered
    }

    /// Hands out a subscriber on the current channel, creating the channel
    /// first if none exists yet. The subscriber sees every event published
    /// after this call, until the channel is replaced.
    pub fn subscriber(&mut self) -> (rx: tokio::sync::broadcast::Receiver<String>)
        ensures
            final(self).initialized(),
            final(self).published() == old(self).published(),
            final(self).channel_generation() == if old(self).initialized() {
                old(self).channel_generation()
            } else {
                old(self).channel_generation() + 1
            },
    {
        if self.sender.is_none() {
            let (tx, rx) = new_channel(CHANNEL_DEPTH);
            self.sender = Some(tx);
            self.generation = Ghost(self.generation@ + 1);
            return rx;
        }
        channel_subscribe(self.sender.as_ref().unwrap())
    }

    /// The bridge entry point for a caller that cannot pass a handle or
    /// register callbacks: clamps and remaps raw note counters and
    /// publishes the resulting snapshot. This is the only place the
    /// percentage remap occurs.
    pub fn emit_raw_progress(&mut self, processed: u32, total: u32) -> (delivered: usize)
        ensures
            final(self).initialized(),
            final(self).published() == old(self).published().push(
                bridge_event_spec(processed, total),
            ),
            final(self).channel_generation() == if old(self).initialized() {
                old(self).channel_generation()
            } else {
                old(self).channel_generation() + 1
            },
    {
        let progress = remap_note_progress(processed, total);
        let event = ProgressEvent {
            status: SendStatus::Sending,
            progress,
            total: 100,
            error: Option::None,
            txid: Option::None,
        };
        self.publish(&event)
    }
}

} // verus!
