//! The decisions of one connection handler.
//!
//! A handler bridges one client socket to the broadcast bus. Its caller races
//! a line read from the socket against a message received from the bus, hands
//! whichever comes first to [`Handler::step`] as an [`Event`], and performs the
//! [`Action`] that comes back, reporting how that went as the next event.
use vstd::prelude::*;
use crate::message::{format_message, message_of};

verus! {

/// Why a handler stopped with an error.
#[derive(Clone, Copy, Debug, PartialEq, Eq, Structural)]
pub enum HandlerError {
    /// Reading from the socket failed.
    Read,
    /// Writing to the socket failed.
    Write,
    /// The bus refused a message.
    Publish,
    /// This connection fell behind the bus and this many messages were lost.
    Lagged(u64),
    /// The bus has no senders left.
    BusClosed,
}

/// What happened on the connection since the last step.
#[derive(Debug)]
pub enum Event {
    /// A read from the socket completed. The text holds the line with its
    /// newline; it is empty when the read found the end of the stream.
    Read(String),
    /// A read from the socket failed.
    ReadFailed,
    /// The bus took the message last asked to be published.
    Published,
    /// The bus refused the message last asked to be published.
    PublishFailed,
    /// The bus delivered a message to this connection.
    Received(String),
    /// This connection missed messages because it fell behind the bus.
    Lagged(u64),
    /// The bus was closed.
    BusClosed,
    /// The message last asked to be written reached the socket.
    Written,
    /// Writing to the socket failed.
    WriteFailed,
}

/// What the caller is to do next.
#[derive(Debug)]
pub enum Action {
    /// Send this message to every subscriber of the bus.
    Publish(String),
    /// Write the bytes of this message to the socket.
    Write(String),
    /// Nothing to do: race the socket against the bus again.
    Wait,
    /// The peer closed its side: stop the handler without error.
    Finish,
    /// Stop the handler with this error.
    Fail(HandlerError),
}

/// An [`Action`] with its text as a sequence of characters.
pub enum Reply {
    Publish(Seq<char>),
    Write(Seq<char>),
    Wait,
    Finish,
    Fail(HandlerError),
}

impl View for Action {
    type V = Reply;

    open spec fn view(&self) -> Reply {
        match self {
            Action::Publish(m) => Reply::Publish(m@),
            Action::Write(m) => Reply::Write(m@),
            Action::Wait => Reply::Wait,
            Action::Finish => Reply::Finish,
            Action::Fail(e) => Reply::Fail(*e),
        }
    }
}

/// What a running handler at `peer` answers to `ev`.
pub open spec fn reply(peer: Seq<char>, ev: Event) -> Reply {
    match ev {
        Event::Read(line) => if line@.len() == 0 {
            Reply::Finish
        } else {
            Reply::Publish(message_of(peer, line@))
        },
        Event::ReadFailed => Reply::Fail(HandlerError::Read),
        Event::Published => Reply::Wait,
        Event::PublishFailed => Reply::Fail(HandlerError::Publish),
        Event::Received(msg) => Reply::Write(msg@),
        Event::Lagged(n) => Reply::Fail(HandlerError::Lagged(n)),
        Event::BusClosed => Reply::Fail(HandlerError::BusClosed),
        Event::Written => Reply::Wait,
        Event::WriteFailed => Reply::Fail(HandlerError::Write),
    }
}

/// Whether a reply ends the handler.
pub open spec fn is_final(r: Reply) -> bool {
    r is Finish || r is Fail
}

/// The handler of one connection: the peer's address as text, and whether
/// the handler still runs.
pub struct Handler {
    peer: String,
    running: bool,
}

impl Handler {
    /// The address of the peer, as it prefixes the peer's messages.
    pub closed spec fn peer_spec(&self) -> Seq<char> {
        self.peer@
    }

    /// Whether the handler has not stopped yet.
    pub closed spec fn is_running(&self) -> bool {
        self.running
    }

    /// A running handler for the connection from `peer`.
    pub fn new(peer: String) -> (h: Handler)
        ensures
            h.peer_spec() == peer@,
            h.is_running(),
    {
        Handler { peer, running: true }
    }

    /// The address of the peer.
    pub fn peer(&self) -> (r: &str)
        ensures
            r@ == self.peer_spec(),
    {
        self.peer.as_str()
    }

    /// Whether the handler has not stopped yet.
    pub fn running(&self) -> (r: bool)
        ensures
            r == self.is_running(),
    {
        self.running
    }

    /// Answers one event. A running handler answers as [`reply`] says and
    /// stops on a final answer; a stopped handler answers nothing more.
    pub fn step(&mut self, ev: Event) -> (r: Action)
        ensures
            final(self).peer_spec() == old(self).peer_spec(),
            old(self).is_running() ==> r@ == reply(old(self).peer_spec(), ev),
            old(self).is_running() ==> final(self).is_running() == !is_final(r@),
            !old(self).is_running() ==> r@ == Reply::Wait && !final(self).is_running(),
    {
        if !self.running {
            return Action::Wait;
        }
        let r = match ev {
            Event::Read(line) => {
                if line.as_str().is_empty() {
                    Action::Finish
                } else {
                    Action::Publish(format_message(self.peer.as_str(), line.as_str()))
                }
            },
            Event::ReadFailed => Action::Fail(HandlerError::Read),
            Event::Published => Action::Wait,
            Event::PublishFailed => Action::Fail(HandlerError::Publish),
            Event::Received(msg) => Action::Write(msg),
            Event::Lagged(n) => Action::Fail(HandlerError::Lagged(n)),
            Event::BusClosed => Action::Fail(HandlerError::BusClosed),
            Event::Written => Action::Wait,
            Event::WriteFailed => Action::Fail(HandlerError::Write),
        };
        match r {
            Action::Finish | Action::Fail(_) => {
                self.running = false;
            },
            _ => {},
        }
        r
    }
}

} // verus!
