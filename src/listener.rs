//! The decisions of the listener loop, and the bus it wires connections to.
use vstd::prelude::*;
use tokio::sync::broadcast::{Receiver, Sender};

verus! {

/// The capacity the bus is made with. tokio rounds a channel's capacity up to
/// the next power of two, so the bus holds 16 messages for a subscriber that
/// has not read them before that subscriber lags.
pub const BUS_CAPACITY: usize = 10;

#[verifier::external_type_specification]
#[verifier::external_body]
#[verifier::reject_recursive_types(T)]
pub struct ExSender<T>(Sender<T>);

#[verifier::external_type_specification]
#[verifier::external_body]
#[verifier::reject_recursive_types(T)]
pub struct ExReceiver<T>(Receiver<T>);

/// The capacity that the channel behind a sender was made with.
pub uninterp spec fn bus_capacity(tx: Sender<String>) -> nat;

/// Relies on tokio::sync::broadcast::channel, which panics on a capacity of
/// zero or above half of `usize::MAX`, and builds its ring buffer from the
/// capacity it is given.
#[verifier::external_body]
fn broadcast_channel(capacity: usize) -> (r: (Sender<String>, Receiver<String>))
    requires
        0 < capacity <= usize::MAX / 2,
    ensures
        bus_capacity(r.0) == capacity,
{
    tokio::sync::broadcast::channel(capacity)
}

/// Creates the process-wide bus: its publish end, and a first subscription
/// that the caller may drop.
pub fn open_bus() -> (r: (Sender<String>, Receiver<String>))
    ensures
        bus_capacity(r.0) == BUS_CAPACITY,
{
    broadcast_channel(BUS_CAPACITY)
}

/// The outcome of one attempt to accept a connection.
pub enum Accepted {
    /// A connection came in from this address.
    Connection(String),
    /// A connection came in, but its peer's address could not be had.
    NoPeerAddress,
    /// Accepting failed.
    Failed,
}

/// What the listener does with an accepted connection.
#[derive(Debug)]
pub enum ListenerAction {
    /// Subscribe to the bus and start a handler for the peer at this address.
    Spawn(String),
    /// Drop this connection and go on accepting.
    Skip,
    /// Stop the server.
    Stop,
}

/// Decides what to do with the outcome of one accept: a connection with a
/// known peer gets a handler, one without is dropped and the loop goes on, and
/// a failed accept stops the server.
pub fn on_accept(a: Accepted) -> (r: ListenerAction)
    ensures
        a is Connection ==> r is Spawn && r->Spawn_0@ == a->Connection_0@,
        a is NoPeerAddress ==> r is Skip,
        a is Failed ==> r is Stop,
{
    match a {
        Accepted::Connection(peer) => ListenerAction::Spawn(peer),
        Accepted::NoPeerAddress => ListenerAction::Skip,
        Accepted::Failed => ListenerAction::Stop,
    }
}

} // verus!
