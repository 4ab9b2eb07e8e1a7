//! The event channel: a single-slot bounded queue from the event-pump thread to the
//! render thread.
//!
//! One slot gives backpressure: the producer cannot run ahead of the consumer by more
//! than one event. Either side learns that its peer is gone from the failure of its next
//! blocking operation.

use vstd::prelude::*;

verus! {

/// `crossbeam_channel::Sender`, the sending side of a channel, as an opaque type.
#[verifier::external_type_specification]
#[verifier::external_body]
#[verifier::reject_recursive_types(T)]
pub struct ExSender<T>(crossbeam_channel::Sender<T>);

/// `crossbeam_channel::Receiver`, the receiving side of a channel, as an opaque type.
#[verifier::external_type_specification]
#[verifier::external_body]
#[verifier::reject_recursive_types(T)]
pub struct ExReceiver<T>(crossbeam_channel::Receiver<T>);

/// `crossbeam_channel::SendError`, the error of a send on a disconnected channel, as an
/// opaque type.
#[verifier::external_type_specification]
#[verifier::external_body]
#[verifier::reject_recursive_types(T)]
pub struct ExSendError<T>(crossbeam_channel::SendError<T>);

/// `crossbeam_channel::RecvError`, the error of a receive on an empty and disconnected
/// channel, as an opaque type.
#[verifier::external_type_specification]
#[verifier::external_body]
pub struct ExRecvError(crossbeam_channel::RecvError);

/// The peer's end of the event channel is gone.
#[derive(Clone, Copy, Debug, PartialEq, Eq, Structural)]
pub struct Disconnected;

/// The number of events the channel holds before the producer has to wait.
pub const EVENT_CHANNEL_CAPACITY: usize = 1;

/// The producing end of the event channel.
#[verifier::reject_recursive_types(T)]
pub struct EventSender<T> {
    sender: crossbeam_channel::Sender<T>,
}

/// The consuming end of the event channel.
#[verifier::reject_recursive_types(T)]
pub struct EventReceiver<T> {
    receiver: crossbeam_channel::Receiver<T>,
}

/// Calls `crossbeam_channel::bounded`, which makes a channel that holds up to `capacity`
/// messages and hands out its two ends. The crate panics on a capacity too large to set
/// the channel up; the one capacity that the event channel is ever made with is far from
/// that, and no other is let through. Nothing is claimed of the two ends.
#[verifier::external_body]
fn bounded<T>(capacity: usize) -> (ends: (
    crossbeam_channel::Sender<T>,
    crossbeam_channel::Receiver<T>,
))
    requires
        capacity == EVENT_CHANNEL_CAPACITY,
{
    crossbeam_channel::bounded(capacity)
}

/// Calls `crossbeam_channel::Sender::send`, which blocks until the message is in the
/// channel or every receiver is gone. Which of the two happens depends on the other
/// thread, so nothing is claimed of the result.
#[verifier::external_body]
fn send<T>(sender: &crossbeam_channel::Sender<T>, message: T) -> (sent: Result<
    (),
    crossbeam_channel::SendError<T>,
>) {
    sender.send(message)
}

/// Calls `crossbeam_channel::Receiver::recv`, which blocks until a message is there or
/// the channel is empty and every sender is gone. Which of the two happens depends on
/// the other thread, so nothing is claimed of the result.
#[verifier::external_body]
fn recv<T>(receiver: &crossbeam_channel::Receiver<T>) -> (received: Result<
    T,
    crossbeam_channel::RecvError,
>) {
    receiver.recv()
}

/// What a producer is told for the outcome of handing a message to the channel.
pub open spec fn send_outcome<E>(sent: Result<(), E>) -> Result<(), Disconnected> {
    match sent {
        Ok(()) => Ok(()),
        Err(_) => Err(Disconnected),
    }
}

/// What a consumer is told for the outcome of taking a message from the channel.
pub open spec fn recv_outcome<T, E>(received: Result<T, E>) -> Result<T, Disconnected> {
    match received {
        Ok(message) => Ok(message),
        Err(_) => Err(Disconnected),
    }
}

/// Reports the outcome of handing a message to the channel: failure means that the
/// consumer is gone.
pub fn report_send<E>(sent: Result<(), E>) -> (outcome: Result<(), Disconnected>)
    ensures
        outcome == send_outcome(sent),
{
    match sent {
        Ok(()) => Ok(()),
        Err(_) => Err(Disconnected),
    }
}

/// Reports the outcome of taking a message from the channel: failure means that the
/// producer is gone and nothing is left to read.
pub fn report_recv<T, E>(received: Result<T, E>) -> (outcome: Result<T, Disconnected>)
    ensures
        outcome == recv_outcome(received),
{
    match received {
        Ok(message) => Ok(message),
        Err(_) => Err(Disconnected),
    }
}

/// Makes the event channel and hands out its two ends.
pub fn event_channel<T>() -> (ends: (EventSender<T>, EventReceiver<T>)) {
    let (sender, receiver) = bounded(EVENT_CHANNEL_CAPACITY);
    (EventSender { sender }, EventReceiver { receiver })
}

impl<T> EventSender<T> {
    /// Hands `event` to the channel, waiting while the slot is taken. Fails when the
    /// consumer is gone; whether it is depends on the other thread.
    pub fn send(&self, event: T) -> (outcome: Result<(), Disconnected>) {
        report_send(send(&self.sender, event))
    }
}

impl<T> EventReceiver<T> {
    /// Takes the next event from the channel, waiting while there is none. Fails when
    /// the producer is gone and the channel is empty; whether it is depends on the other
    /// thread.
    pub fn recv(&self) -> (outcome: Result<T, Disconnected>) {
        report_recv(recv(&self.receiver))
    }
}

} // verus!
