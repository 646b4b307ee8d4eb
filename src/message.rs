//! The wire format of a relayed message.
use vstd::prelude::*;
use vstd::string::StringExecFns;

verus! {

/// The separator between the sender's address and the text of its line.
pub open spec fn separator() -> Seq<char> {
    seq![':', ' ']
}

/// The message relayed for `line` read from the client at `peer`:
/// the address, a colon and a space, then the line exactly as read
/// (its trailing newline included).
pub open spec fn message_of(peer: Seq<char>, line: Seq<char>) -> Seq<char> {
    peer + separator() + line
}

/// Builds the message that the connection at `peer` publishes for `line`.
pub fn format_message(peer: &str, line: &str) -> (r: String)
    ensures
        r@ == message_of(peer@, line@),
{
    let mut r = String::from_str(peer);
    proof {
        reveal_strlit(": ");
    }
    r.append(": ");
    r.append(line);
    r
}

} // verus!
