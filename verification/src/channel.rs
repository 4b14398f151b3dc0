//! Trusted surface over tokio's broadcast channel, the multi-producer
//! fan-out primitive behind both chat modes. Nothing here is proved: each
//! item states only what tokio documents — two names stand for the fixed
//! facts of a channel, the backlog bound it was created with and which
//! channel a receiver is subscribed to — and the logic that depends on a
//! send's outcome takes that outcome as a plain value.

use vstd::prelude::*;

use tokio::sync::broadcast::{Receiver, Sender};

verus! {

#[verifier::external_type_specification]
#[verifier::external_body]
#[verifier::reject_recursive_types(T)]
pub struct ExSender<T>(Sender<T>);

#[verifier::external_type_specification]
#[verifier::external_body]
#[verifier::reject_recursive_types(T)]
pub struct ExReceiver<T>(Receiver<T>);

/// The backlog bound a broadcast channel was created with: fixed for the
/// channel's whole life, so a function of the sender alone. tokio rounds
/// the retained slots up to the next power of two, so a receiver keeps at
/// least this many pending messages.
pub uninterp spec fn channel_capacity(tx: Sender<String>) -> nat;

/// Whether this receiver is a subscription of this channel; fixed when the
/// receiver is created.
pub uninterp spec fn subscribed_to(rx: Receiver<String>, tx: Sender<String>) -> bool;

/// Relies on tokio's `broadcast::channel`: a connected sender/receiver
/// pair created with the given backlog bound — the bound `channel_capacity`
/// names; tokio retains at least that many pending messages per receiver,
/// rounding the slot count up to the next power of two. The receiver
/// handed back is a subscription of this very channel. The call panics on
/// a capacity of zero or above `usize::MAX / 2`, so those are excluded.
#[verifier::external_body]
pub fn new_channel(capacity: usize) -> (r: (Sender<String>, Receiver<String>))
    requires
        1 <= capacity <= usize::MAX / 2,
    ensures
        channel_capacity(r.0) == capacity as nat,
        subscribed_to(r.1, r.0),
{
    tokio::sync::broadcast::channel(capacity)
}

/// Relies on tokio's `broadcast::Sender::send`: queues the message for every
/// receiver that is subscribed at this moment and reports whether there was
/// any; a send without receivers delivers nothing. A slow receiver past the
/// channel's backlog loses the oldest messages rather than blocking the
/// sender, so nothing more than the attempt's outcome is stated.
#[verifier::external_body]
pub fn channel_send(tx: &Sender<String>, msg: String) -> (had_receivers: bool) {
    tx.send(msg).is_ok()
}

/// Relies on tokio's `broadcast::Sender::subscribe`: a new receiver of this
/// very channel that observes exactly the messages sent after this call.
#[verifier::external_body]
pub fn channel_subscribe(tx: &Sender<String>) -> (rx: Receiver<String>)
    ensures
        subscribed_to(rx, *tx),
{
    tx.subscribe()
}

/// Relies on tokio's `broadcast::Sender::clone`: another handle to the
/// same channel; the two handles behave alike.
#[verifier::external_body]
pub fn clone_sender(tx: &Sender<String>) -> (r: Sender<String>)
    ensures
        r == *tx,
{
    tx.clone()
}

} // verus!
