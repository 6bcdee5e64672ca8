//! The bounded subscriber queues, which tokio's mpsc channel provides.
//!
//! A queue's contents are shared between its two ends, and the consumer may
//! drain it at any moment: whether an offer is accepted depends on that
//! timing, so nothing is promised of the outcome.
use vstd::prelude::*;
use tokio::sync::mpsc::{Receiver, Sender};

verus! {

#[verifier::external_type_specification]
#[verifier::external_body]
#[verifier::reject_recursive_types(T)]
pub struct ExSender<T>(tokio::sync::mpsc::Sender<T>);

#[verifier::external_type_specification]
#[verifier::external_body]
#[verifier::reject_recursive_types(T)]
pub struct ExReceiver<T>(tokio::sync::mpsc::Receiver<T>);

/// Relies on tokio::sync::mpsc::channel and then Sender::try_send: the fresh
/// queue has `capacity` free slots and its receiver is still held, so
/// `try_send` (which fails only on a full or closed queue) always queues
/// `first`. `channel` panics on a capacity of 0 or above its permit limit
/// (`usize::MAX >> 3`), which `requires` leaves out.
#[verifier::external_body]
pub(crate) fn open_channel_with(capacity: usize, first: String) -> (Sender<String>, Receiver<String>)
    requires
        0 < capacity <= 0x1fff_ffff,
{
    let (tx, rx) = tokio::sync::mpsc::channel(capacity);
    let _ = tx.try_send(first);
    (tx, rx)
}

/// Relies on tokio's Sender::try_send: it never waits; it returns `Ok` when
/// the frame was queued and an error, dropping the frame, when the queue is
/// full or its receiver is gone.
#[verifier::external_body]
pub(crate) fn offer(tx: &Sender<String>, frame: String) -> (accepted: bool) {
    tx.try_send(frame).is_ok()
}

} // verus!
