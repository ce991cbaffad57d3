//! The client side of a connection: the calls that are under way on it, and
//! how each of them ends.

use crate::table::IdTable;
use vstd::prelude::*;

verus! {

/// How a call can fail on the client side.
#[derive(Clone, Copy, Debug, PartialEq, Eq, Structural)]
pub enum CallError {
    /// The socket failed while the call was under way.
    Transport,
    /// The call's deadline passed before its response arrived.
    Timeout,
    /// The caller gave the call up.
    Cancelled,
    /// The response could not be decoded.
    Decode,
    /// The request could not be encoded.
    Encode,
    /// The connection is gone.
    ChannelBroken,
}

/// Why a channel could not be set up.
#[derive(Clone, Copy, Debug, PartialEq, Eq, Structural)]
pub enum ChannelBuildError {
    /// The address is not a socket address.
    AddressParse,
    /// The server could not be reached.
    Connect,
}

/// Where a call stands.
#[derive(Clone, Copy, Debug, PartialEq, Eq, Structural)]
pub enum CallState {
    /// Made, not yet written to the socket.
    Pending,
    /// Written; the response is awaited.
    AwaitingResponse,
    /// The response arrived.
    Completed,
    /// The connection failed first.
    Failed,
    /// The deadline passed first.
    TimedOut,
    /// The caller gave up first.
    Cancelled,
}

/// What can happen to a call.
#[derive(Clone, Copy, Debug, PartialEq, Eq, Structural)]
pub enum CallEvent {
    /// The request was written to the socket.
    Sent,
    /// The matching response arrived.
    Response,
    /// The connection failed.
    ConnectionLost,
    /// The call's deadline passed.
    DeadlinePassed,
    /// The caller dropped its handle on the result.
    Dropped,
}

impl CallState {
    /// Whether the call has ended.
    pub open spec fn spec_is_terminal(self) -> bool {
        self == CallState::Completed || self == CallState::Failed || self == CallState::TimedOut
            || self == CallState::Cancelled
    }

    /// The state after `event`. A call that has ended stays as it is; one
    /// that has not been sent cannot be answered.
    pub open spec fn spec_on(self, event: CallEvent) -> CallState {
        if self.spec_is_terminal() {
            self
        } else {
            match event {
                CallEvent::Sent => CallState::AwaitingResponse,
                CallEvent::Response => if self == CallState::AwaitingResponse {
                    CallState::Completed
                } else {
                    self
                },
                CallEvent::ConnectionLost => CallState::Failed,
                CallEvent::DeadlinePassed => CallState::TimedOut,
                CallEvent::Dropped => CallState::Cancelled,
            }
        }
    }

    /// How a call that ended in this state failed, if it did.
    pub open spec fn spec_error(self) -> Option<CallError> {
        match self {
            CallState::Failed => Some(CallError::Transport),
            CallState::TimedOut => Some(CallError::Timeout),
            CallState::Cancelled => Some(CallError::Cancelled),
            _ => None,
        }
    }

    /// Whether the call has ended.
    pub fn is_terminal(self) -> (ended: bool)
        ensures
            ended == self.spec_is_terminal(),
    {
        match self {
            CallState::Pending => false,
            CallState::AwaitingResponse => false,
            _ => true,
        }
    }

    /// The state after `event`.
    pub fn on(self, event: CallEvent) -> (next: CallState)
        ensures
            next == self.spec_on(event),
    {
        match self {
            CallState::Pending => match event {
                CallEvent::Sent => CallState::AwaitingResponse,
                CallEvent::Response => CallState::Pending,
                CallEvent::ConnectionLost => CallState::Failed,
                CallEvent::DeadlinePassed => CallState::TimedOut,
                CallEvent::Dropped => CallState::Cancelled,
            },
            CallState::AwaitingResponse => match event {
                CallEvent::Sent => CallState::AwaitingResponse,
                CallEvent::Response => CallState::Completed,
                CallEvent::ConnectionLost => CallState::Failed,
                CallEvent::DeadlinePassed => CallState::TimedOut,
                CallEvent::Dropped => CallState::Cancelled,
            },
            ended => ended,
        }
    }

    /// How a call that ended in this state failed, if it did.
    pub fn error(self) -> (e: Option<CallError>)
        ensures
            e == self.spec_error(),
    {
        match self {
            CallState::Failed => Some(CallError::Transport),
            CallState::TimedOut => Some(CallError::Timeout),
            CallState::Cancelled => Some(CallError::Cancelled),
            _ => None,
        }
    }
}

/// The state of a call after a sequence of events, first to last.
pub open spec fn spec_run(state: CallState, events: Seq<CallEvent>) -> CallState
    decreases events.len(),
{
    if events.len() == 0 {
        state
    } else {
        spec_run(state.spec_on(events[0]), events.drop_first())
    }
}

/// Terminal states are absorbing: once a call has ended, nothing that
/// happens afterwards changes how it ended.
pub proof fn lemma_terminal_is_absorbing(state: CallState, events: Seq<CallEvent>)
    requires
        state.spec_is_terminal(),
    ensures
        spec_run(state, events) == state,
    decreases events.len(),
{
    if events.len() > 0 {
        lemma_terminal_is_absorbing(state, events.drop_first());
    }
}

/// The in-flight table of a channel as plain values.
pub struct InFlightView<S> {
    /// The id that the next call gets.
    pub next_id: u64,
    /// The completion slot of each call that awaits its response.
    pub outstanding: Map<u64, S>,
    /// Ids of calls that were given up, whose late response is to be
    /// discarded.
    pub poisoned: Set<u64>,
    /// Why the channel is broken, if it is.
    pub broken: Option<CallError>,
}

impl<S> InFlightView<S> {
    /// What holds of every table: ids are handed out in increasing order, so
    /// every id in use lies below the next one; no call is both awaited and
    /// given up; and a broken channel awaits nothing.
    pub open spec fn well_formed(self) -> bool {
        &&& forall|id: u64| #[trigger] self.outstanding.dom().contains(id) ==> id < self.next_id
        &&& forall|id: u64| #[trigger] self.poisoned.contains(id) ==> id < self.next_id
        &&& forall|id: u64|
            !(#[trigger] self.outstanding.dom().contains(id) && self.poisoned.contains(id))
        &&& self.broken is Some ==> self.outstanding == Map::<u64, S>::empty()
    }

    /// Why a new call is refused, if it is: the channel is broken, or it has
    /// run out of ids.
    pub open spec fn refusal(self) -> Option<CallError> {
        if self.broken is Some {
            self.broken
        } else if self.next_id == u64::MAX {
            Some(CallError::ChannelBroken)
        } else {
            None
        }
    }

    /// The table after a new call was asked for, with `slot` to complete.
    pub open spec fn after_begin(self, slot: S) -> Self {
        if self.refusal() is Some {
            self
        } else {
            InFlightView {
                next_id: (self.next_id + 1) as u64,
                outstanding: self.outstanding.insert(self.next_id, slot),
                ..self
            }
        }
    }

    /// The table after a response for `id` arrived.
    pub open spec fn after_response(self, id: u64) -> Self {
        InFlightView {
            outstanding: self.outstanding.remove(id),
            poisoned: self.poisoned.remove(id),
            ..self
        }
    }

    /// The table after the call `id` was given up, by its deadline or by its
    /// caller.
    pub open spec fn after_abandon(self, id: u64) -> Self {
        if self.outstanding.dom().contains(id) {
            InFlightView {
                outstanding: self.outstanding.remove(id),
                poisoned: self.poisoned.insert(id),
                ..self
            }
        } else {
            self
        }
    }

    /// The table after the connection was lost for the reason `cause`.
    pub open spec fn after_failure(self, cause: CallError) -> Self {
        InFlightView {
            outstanding: Map::empty(),
            poisoned: Set::empty(),
            broken: if self.broken is Some {
                self.broken
            } else {
                Some(cause)
            },
            ..self
        }
    }

    /// The slot that a response for `id` is delivered to, if a call awaits
    /// it.
    pub open spec fn slot_of(self, id: u64) -> Option<S> {
        if self.outstanding.dom().contains(id) {
            Some(self.outstanding[id])
        } else {
            None
        }
    }
}

/// Whether `slots` are the slots of all calls that await their response in
/// `table`, each once, each with its id.
pub open spec fn spec_all_slots<S>(table: InFlightView<S>, slots: Seq<(u64, S)>) -> bool {
    &&& slots.len() == table.outstanding.dom().len()
    &&& forall|i: int, j: int|
        0 <= i < j < slots.len() ==> (#[trigger] slots[i]).0 != (#[trigger] slots[j]).0
    &&& forall|i: int|
        0 <= i < slots.len() ==> table.slot_of((#[trigger] slots[i]).0) == Some(slots[i].1)
    &&& forall|id: u64| #[trigger]
        table.outstanding.dom().contains(id) ==> exists|i: int|
            0 <= i < slots.len() && (#[trigger] slots[i]).0 == id
}

/// The calls that are under way on one channel.
///
/// Each call gets a correlation id and leaves a completion slot: whatever
/// the caller waits on. The slot is handed back when the call ends, to be
/// completed with the response or with an error. The table is owned by the
/// task that drives the socket.
pub struct InFlightTable<S> {
    next_id: u64,
    slots: IdTable<S>,
    poisoned: IdTable<()>,
    broken: Option<CallError>,
}

impl<S> View for InFlightTable<S> {
    type V = InFlightView<S>;

    closed spec fn view(&self) -> InFlightView<S> {
        InFlightView {
            next_id: self.next_id,
            outstanding: self.slots@,
            poisoned: self.poisoned@.dom(),
            broken: self.broken,
        }
    }
}

impl<S> InFlightTable<S> {
    #[verifier::type_invariant]
    spec fn well_formed(self) -> bool {
        self@.well_formed()
    }

    /// The table of a channel that was just connected.
    pub fn new() -> (table: Self)
        ensures
            table@ == (InFlightView::<S> {
                next_id: 0,
                outstanding: Map::empty(),
                poisoned: Set::empty(),
                broken: None,
            }),
            table@.well_formed(),
    {
        let table = InFlightTable {
            next_id: 0,
            slots: IdTable::new(),
            poisoned: IdTable::new(),
            broken: None,
        };
        assert(table@.poisoned =~= Set::<u64>::empty());
        table
    }

    /// The number of calls that await their response.
    pub fn outstanding(&self) -> (n: usize)
        ensures
            self@.well_formed(),
            self@.outstanding.dom().finite(),
            n == self@.outstanding.dom().len(),
    {
        proof {
            use_type_invariant(self);
        }
        self.slots.len()
    }

    /// Whether the call `id` awaits its response.
    pub fn is_outstanding(&self, id: u64) -> (awaited: bool)
        ensures
            awaited == self@.outstanding.dom().contains(id),
    {
        self.slots.contains(id)
    }

    /// Whether the call `id` was given up and its response has not come.
    pub fn is_poisoned(&self, id: u64) -> (poisoned: bool)
        ensures
            poisoned == self@.poisoned.contains(id),
    {
        self.poisoned.contains(id)
    }

    /// Why the channel is broken, if it is.
    pub fn broken(&self) -> (cause: Option<CallError>)
        ensures
            cause == self@.broken,
    {
        self.broken
    }

    /// The id that the next call gets.
    pub fn next_id(&self) -> (id: u64)
        ensures
            id == self@.next_id,
            self@.well_formed(),
    {
        proof {
            use_type_invariant(self);
        }
        self.next_id
    }

    /// Why a new call would be refused, if it would be.
    pub fn refusal(&self) -> (e: Option<CallError>)
        ensures
            e == self@.refusal(),
    {
        match self.broken {
            Some(e) => Some(e),
            None => if self.next_id == u64::MAX {
                Some(CallError::ChannelBroken)
            } else {
                None
            },
        }
    }

    /// Enters a new call. It gets the next id, which no call that is under
    /// way or was given up has, and `slot` is kept for its completion.
    ///
    /// On a broken channel the call fails at once, with the error that broke
    /// the channel, and the slot is handed back.
    pub fn begin(&mut self, slot: S) -> (r: Result<u64, (CallError, S)>)
        ensures
            final(self)@ == old(self)@.after_begin(slot),
            final(self)@.well_formed(),
            match r {
                Ok(id) => {
                    &&& old(self)@.refusal() is None
                    &&& id == old(self)@.next_id
                    &&& !old(self)@.outstanding.dom().contains(id)
                    &&& !old(self)@.poisoned.contains(id)
                },
                Err((e, s)) => old(self)@.refusal() == Some(e) && s == slot,
            },
    {
        proof {
            use_type_invariant(&*self);
        }
        match self.broken {
            Some(e) => {
                return Err((e, slot));
            },
            None => {},
        }
        if self.next_id == u64::MAX {
            return Err((CallError::ChannelBroken, slot));
        }
        let id = self.next_id;
        let mut slots: IdTable<S> = IdTable::new();
        core::mem::swap(&mut self.slots, &mut slots);
        let entered = slots.insert(id, slot);
        assert(entered is Ok);
        self.next_id = id + 1;
        self.slots = slots;
        Ok(id)
    }

    /// Takes in the response for `id`: hands out the slot of the call that
    /// awaits it. Where no call does, the response is to be discarded; if the
    /// call was given up, it is now forgotten.
    pub fn complete(&mut self, id: u64) -> (slot: Option<S>)
        ensures
            final(self)@ == old(self)@.after_response(id),
            final(self)@.well_formed(),
            slot == old(self)@.slot_of(id),
    {
        proof {
            use_type_invariant(&*self);
        }
        let mut slots: IdTable<S> = IdTable::new();
        core::mem::swap(&mut self.slots, &mut slots);
        let slot = slots.remove(id);
        assert(old(self)@.broken is Some ==> slots@ =~= Map::<u64, S>::empty());
        self.slots = slots;
        let mut poisoned: IdTable<()> = IdTable::new();
        core::mem::swap(&mut self.poisoned, &mut poisoned);
        let _ = poisoned.remove(id);
        self.poisoned = poisoned;
        assert(self@.poisoned =~= old(self)@.poisoned.remove(id));
        slot
    }

    fn abandon(&mut self, id: u64) -> (slot: Option<S>)
        ensures
            final(self)@ == old(self)@.after_abandon(id),
            final(self)@.well_formed(),
            slot == old(self)@.slot_of(id),
    {
        proof {
            use_type_invariant(&*self);
        }
        let mut slots: IdTable<S> = IdTable::new();
        core::mem::swap(&mut self.slots, &mut slots);
        let slot = slots.remove(id);
        if slot.is_none() {
            assert(slots@ =~= old(self)@.outstanding);
            self.slots = slots;
            return None;
        }
        assert(old(self)@.broken is None);
        let mut poisoned: IdTable<()> = IdTable::new();
        core::mem::swap(&mut self.poisoned, &mut poisoned);
        let _ = poisoned.insert(id, ());
        self.poisoned = poisoned;
        self.slots = slots;
        assert(self@.poisoned =~= old(self)@.poisoned.insert(id));
        slot
    }

    /// Gives the call `id` up because its deadline passed: hands out its
    /// slot with the error to complete it with, [`CallError::Timeout`], and
    /// remembers the id so that a late response is discarded.
    pub fn expire(&mut self, id: u64) -> (expired: Option<(S, CallError)>)
        ensures
            final(self)@ == old(self)@.after_abandon(id),
            final(self)@.well_formed(),
            match old(self)@.slot_of(id) {
                Some(slot) => expired == Some((slot, CallError::Timeout)),
                None => expired is None,
            },
    {
        match self.abandon(id) {
            Some(slot) => Some((slot, CallError::Timeout)),
            None => None,
        }
    }

    /// Gives the call `id` up because its caller did: hands out its slot, to
    /// be dropped, and remembers the id so that a late response is discarded.
    pub fn cancel(&mut self, id: u64) -> (slot: Option<S>)
        ensures
            final(self)@ == old(self)@.after_abandon(id),
            final(self)@.well_formed(),
            slot == old(self)@.slot_of(id),
    {
        self.abandon(id)
    }

    /// Breaks the channel for the reason `cause`: hands out the slot of every
    /// call that is under way, each once, to be completed with that error.
    /// Calls made from now on fail with the error that first broke the
    /// channel.
    pub fn fail_all(&mut self, cause: CallError) -> (slots: Vec<(u64, S)>)
        ensures
            final(self)@ == old(self)@.after_failure(cause),
            final(self)@.well_formed(),
            spec_all_slots(old(self)@, slots@),
    {
        proof {
            use_type_invariant(&*self);
        }
        let mut taken: IdTable<S> = IdTable::new();
        assert(self@.poisoned == self.poisoned@.dom() && self@.next_id == self.next_id);
        core::mem::swap(&mut self.slots, &mut taken);
        let all = taken.drain();
        let mut forgotten: IdTable<()> = IdTable::new();
        assert(forgotten@.dom() =~= Set::<u64>::empty());
        core::mem::swap(&mut self.poisoned, &mut forgotten);
        match self.broken {
            Some(_) => {},
            None => {
                self.broken = Some(cause);
            },
        }
        all
    }
}

/// Whichever way the responses to two calls arrive, each is delivered to the
/// slot of its own call, and the table ends up the same.
pub proof fn lemma_responses_commute<S>(table: InFlightView<S>, a: u64, b: u64)
    requires
        a != b,
    ensures
        table.after_response(a).slot_of(b) == table.slot_of(b),
        table.after_response(b).slot_of(a) == table.slot_of(a),
        table.after_response(a).after_response(b) == table.after_response(b).after_response(a),
{
    assert(table.outstanding.remove(a).remove(b) =~= table.outstanding.remove(b).remove(a));
    assert(table.poisoned.remove(a).remove(b) =~= table.poisoned.remove(b).remove(a));
}

/// The table after responses arrived for `order`, first to last.
pub open spec fn spec_after_responses<S>(table: InFlightView<S>, order: Seq<u64>) -> InFlightView<
    S,
>
    decreases order.len(),
{
    if order.len() == 0 {
        table
    } else {
        spec_after_responses(table.after_response(order[0]), order.drop_first())
    }
}

/// Order independence: responses may arrive in any order. When the response
/// to a call arrives after those to any other calls, it is still delivered to
/// the slot that its own call left.
pub proof fn lemma_order_independence<S>(table: InFlightView<S>, earlier: Seq<u64>, id: u64)
    requires
        !earlier.contains(id),
    ensures
        spec_after_responses(table, earlier).slot_of(id) == table.slot_of(id),
    decreases earlier.len(),
{
    if earlier.len() > 0 {
        assert(earlier[0] != id);
        assert forall|k: int| 0 <= k < earlier.drop_first().len() implies earlier.drop_first()[k]
            != id by {
            assert(earlier.drop_first()[k] == earlier[k + 1]);
        }
        lemma_order_independence(table.after_response(earlier[0]), earlier.drop_first(), id);
    }
}

/// Correlation ids are unique among the calls under way: a call that is
/// accepted gets an id that no call awaiting its response has, and none that
/// was given up; and the table stays well formed whatever happens to it.
pub proof fn lemma_ids_are_unique<S>(table: InFlightView<S>, slot: S, id: u64, cause: CallError)
    requires
        table.well_formed(),
    ensures
        table.refusal() is None ==> !table.outstanding.dom().contains(table.next_id)
            && !table.poisoned.contains(table.next_id),
        table.after_begin(slot).well_formed(),
        table.after_response(id).well_formed(),
        table.after_abandon(id).well_formed(),
        table.after_failure(cause).well_formed(),
{
    if table.refusal() is None {
        if table.outstanding.dom().contains(table.next_id) {
            assert(table.next_id < table.next_id);
        }
        if table.poisoned.contains(table.next_id) {
            assert(table.next_id < table.next_id);
        }
    }
    if table.broken is Some {
        assert(table.after_response(id).outstanding =~= Map::<u64, S>::empty());
        assert(table.after_abandon(id).outstanding =~= Map::<u64, S>::empty());
    }
}

} // verus!
