//! Properties of the relay that follow from how a handler answers events.
use vstd::prelude::*;
use crate::handler::{Event, HandlerError, Reply, is_final, reply};
use crate::message::message_of;

verus! {

/// A line read by the handler at `sender` is published as the sender's
/// address followed by the line, and each of any number of running handlers
/// (the sender among them or not) that the bus hands that message to writes
/// it to its own client verbatim and keeps running: no handler filters what
/// it relays.
pub proof fn lemma_line_reaches_all(sender: Seq<char>, others: Seq<Seq<char>>, line: String, msg: String)
    requires
        line@.len() > 0,
        msg@ == message_of(sender, line@),
    ensures
        reply(sender, Event::Read(line)) == Reply::Publish(msg@),
        !is_final(reply(sender, Event::Read(line))),
        forall|i: int|
            0 <= i < others.len() ==> #[trigger] reply(others[i], Event::Received(msg))
                == Reply::Write(message_of(sender, line@)) && !is_final(
                reply(others[i], Event::Received(msg)),
            ),
{
}

/// A handler that publishes a line and is then handed its own message by the
/// bus writes that message back to its own client.
pub proof fn lemma_self_echo(peer: Seq<char>, line: String, msg: String)
    requires
        line@.len() > 0,
        msg@ == message_of(peer, line@),
    ensures
        reply(peer, Event::Read(line)) == Reply::Publish(msg@),
        reply(peer, Event::Received(msg)) == Reply::Write(msg@),
{
}

/// A handler told that it fell behind the bus stops with an error that
/// names how many messages were lost; it asks for none of them again.
pub proof fn lemma_lag_stops(peer: Seq<char>, missed: u64)
    ensures
        reply(peer, Event::Lagged(missed)) == Reply::Fail(HandlerError::Lagged(missed)),
        is_final(reply(peer, Event::Lagged(missed))),
{
}

/// A read that finds the end of the stream stops the handler without error.
pub proof fn lemma_clean_disconnect(peer: Seq<char>, line: String)
    requires
        line@.len() == 0,
    ensures
        reply(peer, Event::Read(line)) == Reply::Finish,
        is_final(reply(peer, Event::Read(line))),
{
}

} // verus!
