//! The side band of a call: what travels with a request and its response
//! besides the payload.

use crate::buffer::bytes_seq;
use bytes::Bytes;
use vstd::prelude::*;

verus! {

/// Per-call side band: attachment bytes, a deadline, and the text of the last
/// error. One is made for every call, moves with it, and comes back with the
/// response.
#[derive(Clone, Debug, PartialEq, Eq)]
pub struct Controller {
    attachment: Bytes,
    deadline: Option<u64>,
    last_error: Option<String>,
}

/// A controller as plain values.
pub struct ControllerView {
    /// Bytes sent beside the payload.
    pub attachment: Seq<u8>,
    /// Instant on the caller's monotonic clock, in milliseconds, after which
    /// the call is given up.
    pub deadline: Option<u64>,
    /// Text of the last error that the call ran into.
    pub last_error: Option<Seq<char>>,
}

/// The side band of a call on which nothing has been set.
pub open spec fn spec_fresh_controller() -> ControllerView {
    ControllerView { attachment: Seq::empty(), deadline: None, last_error: None }
}

impl View for Controller {
    type V = ControllerView;

    closed spec fn view(&self) -> ControllerView {
        ControllerView {
            attachment: bytes_seq(self.attachment),
            deadline: self.deadline,
            last_error: match self.last_error {
                Some(text) => Some(text@),
                None => None,
            },
        }
    }
}

impl Default for Controller {
    fn default() -> (controller: Self)
        ensures
            controller@ == spec_fresh_controller(),
    {
        Controller { attachment: Bytes::new(), deadline: None, last_error: None }
    }
}

impl Controller {
    /// A controller for a new call: no attachment, no deadline, no error.
    pub fn new() -> (controller: Self)
        ensures
            controller@ == spec_fresh_controller(),
    {
        Controller { attachment: Bytes::new(), deadline: None, last_error: None }
    }

    /// Replaces the attachment.
    pub fn set_attachment(&mut self, attachment: Bytes)
        ensures
            final(self)@ == (ControllerView { attachment: bytes_seq(attachment), ..old(self)@ }),
    {
        self.attachment = attachment;
    }

    /// The attachment.
    pub fn attachment(&self) -> (attachment: Bytes)
        ensures
            bytes_seq(attachment) == self@.attachment,
    {
        self.attachment.clone()
    }

    /// Sets or clears the deadline.
    pub fn set_deadline(&mut self, deadline: Option<u64>)
        ensures
            final(self)@ == (ControllerView { deadline, ..old(self)@ }),
    {
        self.deadline = deadline;
    }

    /// The deadline, if the call has one.
    pub fn deadline(&self) -> (deadline: Option<u64>)
        ensures
            deadline == self@.deadline,
    {
        self.deadline
    }

    /// Whether the call has a deadline and the clock has reached it.
    pub fn is_expired(&self, now: u64) -> (expired: bool)
        ensures
            expired == (self@.deadline is Some && self@.deadline->0 <= now),
    {
        match self.deadline {
            Some(deadline) => deadline <= now,
            None => false,
        }
    }

    /// Records an error text, replacing an earlier one.
    pub fn set_failed(&mut self, text: String)
        ensures
            final(self)@ == (ControllerView { last_error: Some(text@), ..old(self)@ }),
    {
        self.last_error = Some(text);
    }

    /// Whether an error text was recorded.
    pub fn failed(&self) -> (failed: bool)
        ensures
            failed == self@.last_error is Some,
    {
        self.last_error.is_some()
    }

    /// The recorded error text, if any.
    pub fn error_text(&self) -> (text: Option<&str>)
        ensures
            text is Some <==> self@.last_error is Some,
            text is Some ==> text->0@ == self@.last_error->0,
    {
        match &self.last_error {
            Some(text) => Some(text.as_str()),
            None => None,
        }
    }
}

} // verus!
