//! The broadcast channel: one bounded, multi-consumer queue shared by every
//! publisher and every streaming connection of the process.
//!
//! The queue itself is `tokio::sync::broadcast`. A publisher never waits for
//! a subscriber: when the buffer is full the oldest message is overwritten,
//! and a subscriber that had not read it yet is told how many it lost.
//!
//! The state of the queue lives behind shared handles and changes under the
//! feet of every holder, so no contract here says what a call will find in
//! it. What can be said of every outcome is said, and what the library
//! decides from an outcome is a function of that outcome. The one thing a
//! subscription has to itself is its read position, and the contract of a
//! receive says how each outcome moves it.

use vstd::prelude::*;
use tokio::sync::broadcast::{Receiver, Sender};
use tokio::sync::broadcast::error::TryRecvError;
use crate::message::Message;

verus! {

/// The sending half of a `tokio` broadcast channel, opaque to the verifier.
#[verifier::external_type_specification]
#[verifier::external_body]
#[verifier::reject_recursive_types(T)]
pub struct ExSender<T>(Sender<T>);

/// The receiving half of a `tokio` broadcast channel, opaque to the verifier.
#[verifier::external_type_specification]
#[verifier::external_body]
#[verifier::reject_recursive_types(T)]
pub struct ExReceiver<T>(Receiver<T>);

/// Why a subscription has no message to give.
#[derive(Clone, Copy, Debug, PartialEq, Eq, Structural)]
pub enum ReceiveError {
    /// The channel has been torn down and everything it held has been read.
    Closed,
    /// The subscriber fell behind by more than the buffer holds; this many
    /// of its oldest unread messages were overwritten. Delivery goes on with
    /// the oldest message that is still there.
    Lagged(u64),
}

/// `tokio::sync::broadcast::channel`, keeping the sender only.
///
/// Trusted: the call returns for every capacity from 1 to `usize::MAX / 2`
/// (outside that range it panics). The receiver that comes with the sender
/// is dropped at once, so the channel starts with no subscriber.
#[verifier::external_body]
fn open(capacity: usize) -> (tx: Sender<Message>)
    requires
        0 < capacity <= usize::MAX / 2,
{
    tokio::sync::broadcast::channel(capacity).0
}

/// `Sender::send`, with the message of a failed send taken out of its error.
///
/// Trusted: a send that succeeds reports the number of receivers at that
/// moment, which is at least one; a send fails only when there is none, and
/// then hands the very message back.
#[verifier::external_body]
fn send(tx: &Sender<Message>, msg: Message) -> (res: Result<usize, Message>)
    ensures
        match res {
            Ok(n) => n >= 1,
            Err(back) => back == msg,
        },
{
    tx.send(msg).map_err(|e| e.0)
}

/// `Sender::subscribe`. Nothing is claimed of the receiver. (The call panics
/// once a quarter of `usize::MAX` receivers are alive at the same time,
/// which no process has the memory for.)
#[verifier::external_body]
fn attach(tx: &Sender<Message>) -> (rx: Receiver<Message>) {
    tx.subscribe()
}

/// The read position of a receiver: the place, in the order of publication,
/// of the message it will take next, counted by the queue in 64 bits. The
/// receiver keeps it in a field of its own (its cursor), which nothing moves
/// but a receive on that very receiver.
pub uninterp spec fn cursor(rx: Receiver<Message>) -> u64;

/// The position `by` places after `from`. The queue counts positions in 64
/// bits and wraps around, so this does too.
pub open spec fn advanced(from: u64, by: u64) -> int {
    (from + by) % 0x1_0000_0000_0000_0000
}

/// `Receiver::try_recv`, with an empty buffer reported as `Ok(None)`.
///
/// Trusted, of the receiver's cursor: a message taken moves it on by one;
/// with nothing waiting it stays where it is; a lag is reported only when
/// at least one message was lost, and moves it on by the number reported,
/// to the oldest message still held. Nothing is claimed of which outcome
/// comes, of the message itself, or of the cursor of a closed channel.
#[verifier::external_body]
fn try_recv(rx: &mut Receiver<Message>) -> (res: Result<Option<Message>, ReceiveError>)
    ensures
        res matches Ok(Some(_)) ==> cursor(*final(rx)) == advanced(cursor(*old(rx)), 1),
        res matches Ok(None) ==> cursor(*final(rx)) == cursor(*old(rx)),
        res matches Err(ReceiveError::Lagged(n)) ==> n >= 1 && cursor(*final(rx)) == advanced(
            cursor(*old(rx)),
            n,
        ),
{
    match rx.try_recv() {
        Ok(msg) => Ok(Some(msg)),
        Err(TryRecvError::Empty) => Ok(None),
        Err(TryRecvError::Closed) => Err(ReceiveError::Closed),
        Err(TryRecvError::Lagged(n)) => Err(ReceiveError::Lagged(n)),
    }
}

/// The number of subscriptions that a send reached: what the channel
/// reported, or none when it handed the message back for want of a
/// subscriber.
pub open spec fn reached_count(outcome: Result<usize, Message>) -> usize {
    match outcome {
        Ok(n) => n,
        Err(_) => 0,
    }
}

/// Reads the outcome of a send as the number of subscriptions reached. A
/// send that found no subscriber is no failure: it reached zero of them.
pub fn reached(outcome: &Result<usize, Message>) -> (count: usize)
    ensures
        count == reached_count(*outcome),
        outcome is Err ==> count == 0,
{
    match outcome {
        Ok(n) => *n,
        Err(_) => 0,
    }
}

/// The broadcast channel. It is made once, shared by reference, and lives
/// as long as the process; dropping it tears the channel down.
pub struct Channel {
    tx: Sender<Message>,
    capacity: usize,
}

/// One consumer's read position in the broadcast channel. It sees the
/// messages published after it was made, in the order of publication.
/// Dropping it takes it out of the channel's set of subscribers.
pub struct Subscription {
    rx: Receiver<Message>,
}

impl Channel {
    /// The capacity that the channel was made with.
    pub closed spec fn spec_capacity(&self) -> usize {
        self.capacity
    }

    /// A channel without subscribers whose buffer retains at least
    /// `capacity` messages for each subscriber.
    pub fn new(capacity: usize) -> (ch: Channel)
        requires
            0 < capacity <= usize::MAX / 2,
        ensures
            ch.spec_capacity() == capacity,
    {
        Channel { tx: open(capacity), capacity }
    }

    /// The capacity that the channel was made with.
    #[verifier::when_used_as_spec(spec_capacity)]
    pub fn capacity(&self) -> (n: usize)
        ensures
            n == self.spec_capacity(),
    {
        self.capacity
    }

    /// Hands `msg` to every subscription that is active now, without ever
    /// waiting for one of them, and returns how many there were. With no
    /// subscription the message is dropped and the count is zero.
    pub fn publish(&self, msg: Message) -> (count: usize) {
        let outcome = send(&self.tx, msg);
        reached(&outcome)
    }

    /// A new subscription, which receives what is published from now on.
    pub fn subscribe(&self) -> (sub: Subscription) {
        Subscription { rx: attach(&self.tx) }
    }
}

impl Subscription {
    /// The receiver that the subscription holds.
    pub closed spec fn receiver(self) -> Receiver<Message> {
        self.rx
    }

    /// The read position of the subscription: the place, in the order of
    /// publication, of the message it will take next.
    pub open spec fn position(self) -> u64 {
        cursor(self.receiver())
    }

    /// Takes the next message if one is waiting, without suspending:
    /// `Ok(Some(..))` is the next message in the order of publication,
    /// `Ok(None)` says that nothing is waiting, `Err(Lagged(n))` that `n`
    /// messages were lost since the last call, and `Err(Closed)` that the
    /// channel is gone.
    ///
    /// Messages are taken one position after the other: a message moves the
    /// read position on by one, and nothing waiting leaves it. A lag of `n`
    /// moves it on by exactly `n`, so that every position passed was either
    /// delivered or counted as lost, and delivery resumes in order with the
    /// next call.
    pub fn try_receive(&mut self) -> (res: Result<Option<Message>, ReceiveError>)
        ensures
            res matches Ok(Some(_)) ==> final(self).position() == advanced(
                old(self).position(),
                1,
            ),
            res matches Ok(None) ==> final(self).position() == old(self).position(),
            res matches Err(ReceiveError::Lagged(n)) ==> n >= 1 && final(self).position()
                == advanced(old(self).position(), n),
    {
        try_recv(&mut self.rx)
    }

    /// Gives up the subscription for the receiver inside it, at the read
    /// position it has reached, for a driver that has to suspend until the
    /// next message.
    pub fn into_receiver(self) -> (rx: Receiver<Message>)
        ensures
            rx == self.receiver(),
            cursor(rx) == self.position(),
    {
        self.rx
    }
}

} // verus!
