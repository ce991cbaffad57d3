//! The server's record of one connection: when it was last used, and which
//! calls are under way on it.

use crate::protocol::FrameError;
use crate::table::IdTable;
use vstd::prelude::*;

verus! {

/// Seconds that an unused connection is kept unless the server says
/// otherwise.
pub const DEFAULT_IDLE_SECS: u64 = 60;

/// Calls that may be under way on one connection before the server stops
/// reading from it, unless the server says otherwise.
pub const DEFAULT_MAX_IN_FLIGHT: usize = 1024;

/// Why a connection is closed on the server's initiative.
#[derive(Clone, Copy, Debug, PartialEq, Eq, Structural)]
pub enum ConnectionError {
    /// The bytes received are not frames.
    Frame(FrameError),
    /// A frame's meta is not a request meta, and does not even say which
    /// call it belongs to.
    BadMeta,
    /// A request carries the correlation id of a call that is under way.
    DuplicateCorrelation,
}

/// What is done when the idle timer of a connection fires.
#[derive(Clone, Copy, Debug, PartialEq, Eq, Structural)]
pub enum IdleVerdict {
    /// The connection was unused for long enough: close it.
    Close,
    /// The time is up, but calls are under way: wait for them.
    Deferred,
    /// The connection was used since the timer was set: set it again.
    NotYet,
}

/// A connection as plain values. Instants are milliseconds on the server's
/// monotonic clock.
pub struct ConnectionView {
    /// When a frame was last received or sent.
    pub last_activity: u64,
    /// Seconds without a frame after which the connection is closed.
    pub idle_secs: u64,
    /// Calls under way at which the server stops reading.
    pub max_in_flight: usize,
    /// Correlation ids of the calls under way.
    pub in_flight: Set<u64>,
}

impl ConnectionView {
    /// Whether no frame has passed for the idle time.
    pub open spec fn idle_at(self, now: u64) -> bool {
        now - self.last_activity >= self.idle_secs * 1000
    }

    /// The verdict of the idle timer at `now`: the connection is closed if
    /// it was idle for the configured time and no call is under way; if a call
    /// is under way it is never closed.
    pub open spec fn verdict_at(self, now: u64) -> IdleVerdict {
        if !self.idle_at(now) {
            IdleVerdict::NotYet
        } else if self.in_flight.len() > 0 {
            IdleVerdict::Deferred
        } else {
            IdleVerdict::Close
        }
    }

    /// The record after the request `id` was taken in at `now`.
    pub open spec fn after_request(self, now: u64, id: u64) -> Self {
        ConnectionView { last_activity: now, in_flight: self.in_flight.insert(id), ..self }
    }

    /// The record after the response to the call `id` was sent at `now`.
    pub open spec fn after_response(self, now: u64, id: u64) -> Self {
        ConnectionView { last_activity: now, in_flight: self.in_flight.remove(id), ..self }
    }

    /// Whether a connection of a server that is shutting down may be closed
    /// at `now`: once its calls have ended, or the hard deadline has come.
    pub open spec fn may_close_at(self, now: u64, hard_deadline: u64) -> bool {
        self.in_flight.len() == 0 || now >= hard_deadline
    }

    /// The instant at which the idle timer is due, capped at the end of the
    /// clock.
    pub open spec fn idle_deadline(self) -> u64 {
        if self.last_activity + self.idle_secs * 1000 <= u64::MAX {
            (self.last_activity + self.idle_secs * 1000) as u64
        } else {
            u64::MAX
        }
    }
}

/// The server's record of one connection.
pub struct Connection {
    last_activity: u64,
    idle_secs: u64,
    max_in_flight: usize,
    in_flight: IdTable<()>,
}

impl View for Connection {
    type V = ConnectionView;

    closed spec fn view(&self) -> ConnectionView {
        ConnectionView {
            last_activity: self.last_activity,
            idle_secs: self.idle_secs,
            max_in_flight: self.max_in_flight,
            in_flight: self.in_flight@.dom(),
        }
    }
}

impl Connection {
    /// The record of a connection that was accepted at `now`.
    pub fn new(now: u64, idle_secs: u64, max_in_flight: usize) -> (connection: Self)
        ensures
            connection@ == (ConnectionView {
                last_activity: now,
                idle_secs,
                max_in_flight,
                in_flight: Set::empty(),
            }),
    {
        let connection = Connection {
            last_activity: now,
            idle_secs,
            max_in_flight,
            in_flight: IdTable::new(),
        };
        assert(connection@.in_flight =~= Set::<u64>::empty());
        connection
    }

    /// The number of calls under way.
    pub fn in_flight(&self) -> (n: usize)
        ensures
            self@.in_flight.finite(),
            n == self@.in_flight.len(),
    {
        self.in_flight.len()
    }

    /// Whether the call `id` is under way.
    pub fn is_in_flight(&self, id: u64) -> (found: bool)
        ensures
            found == self@.in_flight.contains(id),
    {
        self.in_flight.contains(id)
    }

    /// Whether more frames are to be read from the socket: not while the
    /// calls under way have reached the cap.
    pub fn wants_frames(&self) -> (wanted: bool)
        ensures
            wanted == (self@.in_flight.len() < self@.max_in_flight),
    {
        self.in_flight.len() < self.max_in_flight
    }

    /// Notes that a frame passed at `now`, which sets the idle time back.
    pub fn touch(&mut self, now: u64)
        ensures
            final(self)@ == (ConnectionView { last_activity: now, ..old(self)@ }),
    {
        self.last_activity = now;
    }

    /// Takes in the request `id`, received at `now`.
    ///
    /// A request with the id of a call that is under way is a protocol
    /// error: the record stays as it was, and the connection is to be closed.
    pub fn request_received(&mut self, now: u64, id: u64) -> (r: Result<(), ConnectionError>)
        ensures
            r is Err <==> old(self)@.in_flight.contains(id),
            r is Err ==> r->Err_0 == ConnectionError::DuplicateCorrelation && final(self)@ == old(
                self,
            )@,
            r is Ok ==> final(self)@ == old(self)@.after_request(now, id),
    {
        match self.in_flight.insert(id, ()) {
            Err(_) => Err(ConnectionError::DuplicateCorrelation),
            Ok(()) => {
                self.last_activity = now;
                assert(self@.in_flight =~= old(self)@.in_flight.insert(id));
                Ok(())
            },
        }
    }

    /// Notes that the response to the call `id` was sent at `now`. Says
    /// whether that call was under way.
    pub fn response_sent(&mut self, now: u64, id: u64) -> (known: bool)
        ensures
            known == old(self)@.in_flight.contains(id),
            final(self)@ == old(self)@.after_response(now, id),
    {
        let removed = self.in_flight.remove(id);
        self.last_activity = now;
        assert(self@.in_flight =~= old(self)@.in_flight.remove(id));
        removed.is_some()
    }

    /// Whether no frame has passed for the idle time.
    pub fn is_idle(&self, now: u64) -> (idle: bool)
        ensures
            idle == self@.idle_at(now),
    {
        now >= self.last_activity && (now - self.last_activity) / 1000 >= self.idle_secs
    }

    /// The verdict of the idle timer at `now`.
    pub fn on_idle_timer(&self, now: u64) -> (verdict: IdleVerdict)
        ensures
            verdict == self@.verdict_at(now),
            verdict == IdleVerdict::Close <==> self@.idle_at(now) && self@.in_flight.len() == 0,
    {
        if !self.is_idle(now) {
            IdleVerdict::NotYet
        } else if self.in_flight.len() > 0 {
            IdleVerdict::Deferred
        } else {
            IdleVerdict::Close
        }
    }

    /// Whether the connection may be closed at `now` by a server that is
    /// shutting down and waits for calls under way until `hard_deadline`.
    pub fn on_shutdown(&self, now: u64, hard_deadline: u64) -> (close: bool)
        ensures
            close == self@.may_close_at(now, hard_deadline),
    {
        self.in_flight.len() == 0 || now >= hard_deadline
    }

    /// The instant at which the idle timer is due.
    pub fn idle_deadline(&self) -> (at: u64)
        ensures
            at == self@.idle_deadline(),
    {
        match self.idle_secs.checked_mul(1000) {
            None => u64::MAX,
            Some(idle) => match self.last_activity.checked_add(idle) {
                None => u64::MAX,
                Some(at) => at,
            },
        }
    }
}

/// At most once: while a call is under way, a second request with its
/// correlation id is refused, so that no handler is invoked twice for one
/// id; once the response was sent, the id may be used again.
pub proof fn lemma_at_most_once(connection: ConnectionView, now: u64, id: u64, later: u64)
    ensures
        connection.after_request(now, id).in_flight.contains(id),
        !connection.after_request(now, id).after_response(later, id).in_flight.contains(id),
{
}

/// Idle closure: when the idle timer finds that no frame has passed for the
/// idle time, the connection is closed if no call is under way, and is not
/// closed if one is. A connection that was used in the meantime is never
/// closed.
pub proof fn lemma_idle_closure(connection: ConnectionView, now: u64)
    requires
        connection.in_flight.finite(),
    ensures
        connection.idle_at(now) && connection.in_flight.is_empty() ==> connection.verdict_at(now)
            == IdleVerdict::Close,
        !connection.in_flight.is_empty() ==> connection.verdict_at(now) != IdleVerdict::Close,
        !connection.idle_at(now) ==> connection.verdict_at(now) != IdleVerdict::Close,
{
    if connection.in_flight.is_empty() {
        assert(connection.in_flight.len() == 0);
    } else {
        assert(connection.in_flight.len() > 0) by {
            if connection.in_flight.len() == 0 {
                assert(connection.in_flight =~= Set::<u64>::empty());
            }
        }
    }
}

} // verus!
