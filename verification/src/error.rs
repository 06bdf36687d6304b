//! The single failure type of the library: a message, nothing else.

use crate::text::{decimal, decimal_text};
use vstd::prelude::*;

verus! {

/// The message for a request that could not be sent, or whose response never
/// came.
pub open spec fn send_failure_message(detail: Seq<char>) -> Seq<char> {
    "Failed to send request: "@ + detail
}

/// The message for a response whose status fails the call: the status code
/// in decimal, a colon and a space, then the body as it came.
pub open spec fn status_failure_message(status: u16, body: Seq<char>) -> Seq<char> {
    decimal(status as nat) + ": "@ + body
}

/// The message for a failing response whose body could not be read.
pub open spec fn text_failure_message(detail: Seq<char>) -> Seq<char> {
    "Failed to get text from response: "@ + detail
}

/// The message for a body that could not be decoded into the type `target`.
pub open spec fn decode_failure_message(target: Seq<char>, detail: Seq<char>) -> Seq<char> {
    "Failed to parse JSON into "@ + target + ": "@ + detail
}

/// A failure of any stage of a call, flattened into the text that describes
/// it. The view of an error is its message.
#[derive(Debug)]
pub struct Error(pub(crate) String);

impl View for Error {
    type V = Seq<char>;

    closed spec fn view(&self) -> Seq<char> {
        self.0@
    }
}

/// Builds the error that carries `msg`.
pub fn with_context(msg: &str) -> (error: Error)
    ensures
        error@ == msg@,
{
    Error(String::from_str(msg))
}

impl Error {
    /// The failure to send a request or to get a response: `detail` is the
    /// transport's account of it.
    pub fn send_failure(detail: &str) -> (error: Error)
        ensures
            error@ == send_failure_message(detail@),
    {
        let mut message = String::from_str("Failed to send request: ");
        message.append(detail);
        Error(message)
    }

    /// The failure that a response with a failing `status` is: `body` is the
    /// text that came with it.
    pub fn status_failure(status: u16, body: &str) -> (error: Error)
        ensures
            error@ == status_failure_message(status, body@),
    {
        let mut message = decimal_text(status as u64);
        message.append(": ");
        message.append(body);
        Error(message)
    }

    /// The failure to read the body of a failing response: `detail` is the
    /// transport's account of it.
    pub fn text_failure(detail: &str) -> (error: Error)
        ensures
            error@ == text_failure_message(detail@),
    {
        let mut message = String::from_str("Failed to get text from response: ");
        message.append(detail);
        Error(message)
    }

    /// The failure to decode a body into the type called `target`: `detail`
    /// says what was wrong with the body.
    pub fn decode_failure(target: &str, detail: &str) -> (error: Error)
        ensures
            error@ == decode_failure_message(target@, detail@),
    {
        let mut message = String::from_str("Failed to parse JSON into ");
        message.append(target);
        message.append(": ");
        message.append(detail);
        Error(message)
    }

    /// The message, borrowed.
    pub fn message(&self) -> (message: &str)
        ensures
            message@ == self@,
    {
        self.0.as_str()
    }

    /// The message, as the text that a user is shown.
    pub fn to_string(&self) -> (message: String)
        ensures
            message@ == self@,
    {
        self.0.clone()
    }
}

impl Clone for Error {
    fn clone(&self) -> (copy: Self)
        ensures
            copy@ == self@,
    {
        Error(self.0.clone())
    }
}

} // verus!
