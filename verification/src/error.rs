//! The error type of the library: a message.

use vstd::prelude::*;

verus! {

/// An error with a message, such as `unexpected export` or the message of a
/// module that does not decode.
#[derive(Debug)]
pub struct Error {
    msg: String,
}

impl View for Error {
    type V = Seq<char>;

    closed spec fn view(&self) -> Seq<char> {
        self.msg@
    }
}

impl Error {
    /// An error with the message `m`.
    pub fn new(m: &str) -> (e: Error)
        ensures
            e@ == m@,
    {
        Error { msg: String::from_str(m) }
    }

    /// An error whose message is the string `m`.
    pub fn from_message(m: String) -> (e: Error)
        ensures
            e@ == m@,
    {
        Error { msg: m }
    }

    /// The message.
    pub fn message(&self) -> (r: &str)
        ensures
            r@ == self@,
    {
        self.msg.as_str()
    }
}

} // verus!
