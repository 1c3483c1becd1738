//! The demo application route's logic: a fixed reply table for two input
//! strings, and the error raised for every other message.

use vstd::prelude::*;
use vstd::string::StringExecFns;
use crate::text::str_eq;

verus! {

/// Error returned by [`reply`] for a message outside its fixed table.
#[derive(Debug)]
pub enum ReplyError {
    UnknownMessage(String),
}

/// The text of the error for an unknown message `m`.
pub open spec fn unknown_message_text(m: Seq<char>) -> Seq<char> {
    "Unknown message \""@ + m + "\""@
}

impl ReplyError {
    /// The human-readable description of the error.
    pub fn message(&self) -> (r: String)
        ensures
            self matches ReplyError::UnknownMessage(m) ==> r@ == unknown_message_text(m@),
    {
        match self {
            ReplyError::UnknownMessage(m) => {
                let mut s = "Unknown message \"".to_owned();
                s.append(m.as_str());
                s.append("\"");
                s
            },
        }
    }
}

/// The request body of the reply route: the message to answer.
#[derive(Debug)]
pub struct ReplyRequest {
    pub message: String,
}

/// Answers `"hello"` with `"world"` and `"ping"` with `"pong"`; every other
/// message is rejected with [`ReplyError::UnknownMessage`] carrying the
/// message itself.
pub fn reply(message: &str) -> (r: Result<String, ReplyError>)
    ensures
        r is Ok <==> (message@ == "hello"@ || message@ == "ping"@),
        message@ == "hello"@ ==> (r matches Ok(m) && m@ == "world"@),
        message@ == "ping"@ ==> (r matches Ok(m) && m@ == "pong"@),
        r matches Err(ReplyError::UnknownMessage(m)) ==> m@ == message@,
{
    if str_eq(message, "hello") {
        proof {
            reveal_strlit("hello");
            reveal_strlit("ping");
            assert("hello"@.len() != "ping"@.len());
        }
        Ok("world".to_owned())
    } else if str_eq(message, "ping") {
        Ok("pong".to_owned())
    } else {
        Err(ReplyError::UnknownMessage(message.to_owned()))
    }
}

} // verus!
