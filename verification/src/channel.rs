//! The channel boundary. Every stream of this library hands events from a
//! producer task to a consumer over an unbounded channel, so a producer
//! never blocks. What a receive returns depends on what other handles have
//! sent, so the contracts state only what holds of every outcome.
use vstd::prelude::*;

verus! {

/// Declares flume's send handle for use in signatures and fields.
#[verifier::external_type_specification]
#[verifier::external_body]
#[verifier::reject_recursive_types(T)]
pub struct ExSender<T>(flume::Sender<T>);

/// Declares flume's receive handle for use in signatures and fields.
#[verifier::external_type_specification]
#[verifier::external_body]
#[verifier::reject_recursive_types(T)]
pub struct ExReceiver<T>(flume::Receiver<T>);

/// The stream has ended: every send side is gone and the queue is drained.
#[derive(Debug, Clone, Copy, PartialEq, Eq, Structural)]
pub struct ChannelClosed;

/// Relies on flume::unbounded: a fresh unbounded channel pair; sends on it
/// never block.
#[verifier::external_body]
pub fn channel<T>() -> (flume::Sender<T>, flume::Receiver<T>) {
    flume::unbounded()
}

/// A send handle together with the ghost log of every message the channel
/// has accepted through it, in acceptance order. The log is how contracts
/// of the producers speak of what was handed to a channel.
#[verifier::reject_recursive_types(T)]
pub struct LoggedSender<T> {
    pub inner: flume::Sender<T>,
    pub log: Ghost<Seq<T>>,
}

impl<T> LoggedSender<T> {
    /// Wraps a fresh send handle; nothing has been accepted yet.
    pub fn new(inner: flume::Sender<T>) -> (r: LoggedSender<T>)
        ensures
            r.inner == inner,
            r.log@ == Seq::<T>::empty(),
    {
        LoggedSender { inner, log: Ghost(Seq::empty()) }
    }
}

/// Relies on flume::Sender::send: on an unbounded channel it never blocks,
/// and it fails exactly when every receiver is gone, handing the message
/// back. On success the log grows by exactly the message sent; on failure
/// it is unchanged.
#[verifier::external_body]
pub fn send_logged<T>(s: &mut LoggedSender<T>, msg: T) -> (r: Result<(), T>)
    ensures
        final(s).inner == old(s).inner,
        r is Ok ==> final(s).log@ == old(s).log@.push(msg),
        r matches Err(m) ==> m == msg && final(s).log@ == old(s).log@,
{
    match s.inner.send(msg) {
        Ok(()) => Ok(()),
        Err(flume::SendError(m)) => Err(m),
    }
}

/// Relies on flume::Receiver::recv: blocks until an item arrives, and fails
/// exactly when every sender is gone and the queue is drained.
#[verifier::external_body]
pub fn recv<T>(rx: &flume::Receiver<T>) -> (r: Result<T, ChannelClosed>) {
    match rx.recv() {
        Ok(v) => Ok(v),
        Err(flume::RecvError::Disconnected) => Err(ChannelClosed),
    }
}

} // verus!
