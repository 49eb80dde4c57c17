//! What the bot answers in the channel.

use vstd::prelude::*;

verus! {

/// A line for the channel: a plain message, or a reply to the message that
/// asked for it.
#[derive(Debug, PartialEq, Eq)]
pub enum Response {
    Message(String),
    Reply(String),
}

impl View for Response {
    /// Whether it is a reply, and its text.
    type V = (bool, Seq<char>);

    open spec fn view(&self) -> (bool, Seq<char>) {
        match self {
            Response::Message(t) => (false, t@),
            Response::Reply(t) => (true, t@),
        }
    }
}

impl Response {
    /// The text of the line.
    pub fn text(&self) -> (r: &String)
        ensures
            r@ == self@.1,
    {
        match self {
            Response::Message(text) => text,
            Response::Reply(text) => text,
        }
    }
}

} // verus!
