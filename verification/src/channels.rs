//! Trusted declarations for the `std::sync::mpsc` channel endpoints that the
//! application state holds, and thin wrappers around the channel operations
//! the library performs. vstd gives no specification for `std::sync::mpsc`,
//! so the wrappers' contracts are believed, not proved; they claim nothing
//! about the values a channel delivers, since those depend on the peer end.

use vstd::prelude::*;

use std::sync::mpsc::{Receiver, Sender, SyncSender};

use crate::headlines::{Msg, NewsCardData};

verus! {

#[verifier::external_type_specification]
#[verifier::external_body]
#[verifier::reject_recursive_types(T)]
pub struct ExReceiver<T>(Receiver<T>);

#[verifier::external_type_specification]
#[verifier::external_body]
#[verifier::reject_recursive_types(T)]
pub struct ExSender<T>(Sender<T>);

#[verifier::external_type_specification]
#[verifier::external_body]
#[verifier::reject_recursive_types(T)]
pub struct ExSyncSender<T>(SyncSender<T>);

/// Relies on std::sync::mpsc::channel: returns a connected
/// sender/receiver pair for an unbounded queue.
#[verifier::external_body]
pub(crate) fn new_card_channel() -> (Sender<NewsCardData>, Receiver<NewsCardData>) {
    std::sync::mpsc::channel()
}

/// Relies on std::sync::mpsc::sync_channel: returns a connected
/// sender/receiver pair for a queue bounded at `bound` messages.
#[verifier::external_body]
pub(crate) fn new_msg_channel(bound: usize) -> (SyncSender<Msg>, Receiver<Msg>) {
    std::sync::mpsc::sync_channel(bound)
}

/// Relies on std::sync::mpsc::Receiver::try_recv: without blocking, hands out
/// a queued value if one is ready, and nothing when the queue is empty or the
/// sending side has disconnected. Which case occurs depends on the peer
/// thread, so nothing is claimed of the result.
#[verifier::external_body]
pub(crate) fn try_recv_card(rx: &Receiver<NewsCardData>) -> Option<NewsCardData> {
    match rx.try_recv() {
        Ok(card) => Some(card),
        Err(_) => None,
    }
}

/// Relies on std::sync::mpsc::SyncSender::send: delivers the message unless
/// the receiving side has disconnected, blocking while the queue is full.
/// Whether the receiver is still connected depends on the peer thread, so
/// nothing is claimed of the result.
#[verifier::external_body]
pub(crate) fn send_msg(tx: &SyncSender<Msg>, msg: Msg) -> bool {
    tx.send(msg).is_ok()
}

/// Relies on std::sync::mpsc::Sender::send: delivers the message unless the
/// receiving side has disconnected. Whether the receiver is still connected
/// depends on the peer thread, so nothing is claimed of the result.
#[verifier::external_body]
pub(crate) fn send_card(tx: &Sender<NewsCardData>, card: NewsCardData) -> bool {
    tx.send(card).is_ok()
}

} // verus!
