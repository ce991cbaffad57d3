//! The client's end of a connection: calls are written to the socket as
//! request frames, and each response frame that comes back is matched with
//! the call that awaits it.

use crate::buffer::{buf_seq, bytes_as_slice, bytes_from_vec, bytes_seq};
use crate::channel::{spec_all_slots, CallError, InFlightTable, InFlightView};
use crate::controller::{spec_fresh_controller, Controller, ControllerView};
use crate::message::{
    decode_response, encode_request, spec_decode_response, spec_encode_request, MetaError,
    RequestMeta, RequestMetaView, ResponsePackage, ERROR_OK,
};
use crate::protocol::{emit_frame, spec_frame, spec_pull, BrpcFramer, FrameView};
use bytes::{Bytes, BytesMut};
use vstd::prelude::*;

verus! {

/// How a channel makes its calls.
#[derive(Clone, Copy, Debug)]
pub struct ChannelOption {
    /// Milliseconds after which a call is given up; none to wait for ever.
    pub timeout_ms: Option<u64>,
    /// Calls that may be under way at once; further calls wait their turn.
    pub max_concurrency: usize,
    /// Largest body of a frame, sent or received.
    pub max_frame_size: u32,
}

impl ChannelOption {
    /// The deadline of a call made at `now`: the timeout later, capped at
    /// the end of the clock, or none where the channel has no timeout.
    pub open spec fn spec_deadline(self, now: u64) -> Option<u64> {
        match self.timeout_ms {
            None => None,
            Some(t) => if now + t <= u64::MAX {
                Some((now + t) as u64)
            } else {
                Some(u64::MAX)
            },
        }
    }

    /// Whether another call may be sent while `outstanding` calls are under
    /// way.
    pub fn admits(&self, outstanding: usize) -> (admitted: bool)
        ensures
            admitted == (outstanding < self.max_concurrency),
    {
        outstanding < self.max_concurrency
    }

    /// The deadline of a call made at `now`.
    pub fn deadline(&self, now: u64) -> (deadline: Option<u64>)
        ensures
            deadline == self.spec_deadline(now),
    {
        match self.timeout_ms {
            None => None,
            Some(t) => match now.checked_add(t) {
                Some(at) => Some(at),
                None => Some(u64::MAX),
            },
        }
    }
}

/// The meta of the request that a call of `service_name`.`method_name` sends
/// under the id `correlation_id`.
pub open spec fn spec_call_meta(
    service_name: Seq<char>,
    method_name: Seq<char>,
    correlation_id: u64,
) -> RequestMetaView {
    RequestMetaView {
        service_name,
        method_name,
        correlation_id,
        attachment_size: None,
        authentication_data: None,
        compression_type: None,
    }
}

/// Makes a call: enters it into the table under the next correlation id and
/// appends its request frame to the bytes to be sent.
///
/// A call on a broken channel fails at once with the error that broke the
/// channel. A request too large for one frame fails as one that cannot be
/// encoded. Either way the slot is handed back and nothing else changes.
pub fn send_request<S>(
    table: &mut InFlightTable<S>,
    service_name: &str,
    method_name: &str,
    payload: &Bytes,
    slot: S,
    max: u32,
    dst: &mut BytesMut,
) -> (r: Result<u64, (CallError, S)>)
    requires
        buf_seq(*old(dst)).len() + 12 + spec_encode_request(
            spec_call_meta(service_name@, method_name@, old(table)@.next_id),
        ).len() + bytes_seq(*payload).len() <= usize::MAX,
    ensures
        ({
            let meta = spec_encode_request(
                spec_call_meta(service_name@, method_name@, old(table)@.next_id),
            );
            match r {
                Ok(id) => {
                    &&& old(table)@.refusal() is None
                    &&& meta.len() + bytes_seq(*payload).len() <= max
                    &&& id == old(table)@.next_id
                    &&& !old(table)@.outstanding.dom().contains(id)
                    &&& final(table)@ == old(table)@.after_begin(slot)
                    &&& buf_seq(*final(dst)) == buf_seq(*old(dst)) + spec_frame(
                        meta,
                        bytes_seq(*payload),
                    )
                },
                Err((e, s)) => {
                    &&& s == slot
                    &&& final(table)@ == old(table)@
                    &&& buf_seq(*final(dst)) == buf_seq(*old(dst))
                    &&& match old(table)@.refusal() {
                        Some(cause) => e == cause,
                        None => e == CallError::Encode && meta.len() + bytes_seq(*payload).len()
                            > max,
                    }
                },
            }
        }),
{
    match table.refusal() {
        Some(e) => {
            return Err((e, slot));
        },
        None => {},
    }
    let id = table.next_id();
    let meta = RequestMeta::new(service_name.to_owned(), method_name.to_owned(), id);
    let encoded = bytes_from_vec(encode_request(&meta));
    match emit_frame(&encoded, payload, max, dst) {
        Err(_) => Err((CallError::Encode, slot)),
        Ok(()) => table.begin(slot),
    }
}

/// What the bytes received on a channel lead to.
pub enum Arrival<S> {
    /// No whole frame is there yet.
    Incomplete,
    /// A response for the call that left `slot`: complete the slot with it.
    Deliver { slot: S, response: ResponsePackage },
    /// A response whose meta could not be read, for the call that left
    /// `slot`: complete the slot with `error`, which is
    /// [`CallError::Decode`].
    Fail { slot: S, error: CallError },
    /// A response that no call awaits: it is dropped.
    Discard,
    /// The bytes are not frames, or a frame does not say which call it
    /// answers: the channel is broken, and each of these slots is to be
    /// completed with `cause`, which is [`CallError::Transport`].
    Broken { slots: Vec<(u64, S)>, cause: CallError },
}

/// The controller that comes back with a response: fresh, but for the error
/// text that a failed call's response carries.
pub open spec fn spec_response_controller(error_code: i32, error_text: Option<Seq<char>>) -> ControllerView {
    if error_code != ERROR_OK && error_text is Some {
        ControllerView { last_error: error_text, ..spec_fresh_controller() }
    } else {
        spec_fresh_controller()
    }
}

/// Takes the next response off the bytes received on a channel and matches
/// it with its call by correlation id.
pub fn receive_response<S>(table: &mut InFlightTable<S>, framer: &mut BrpcFramer, buf: &mut BytesMut) -> (arrival: Arrival<S>)
    ensures
        final(framer).spec_max_frame_size() == old(framer).spec_max_frame_size(),
        ({
            let pull = spec_pull(
                old(framer).spec_state(),
                old(framer).spec_max_frame_size(),
                buf_seq(*old(buf)),
            );
            &&& final(framer).spec_state() == pull.state
            &&& buf_seq(*final(buf)) == pull.rest
            &&& match pull.outcome {
                Err(e) => spec_broken(old(table)@, arrival, final(table)@),
                Ok(None) => arrival is Incomplete && final(table)@ == old(table)@,
                Ok(Some(frame)) => spec_matched(old(table)@, frame, arrival, final(table)@),
            }
        }),
{
    let frame = match framer.decode(buf) {
        Err(_) => {
            return Arrival::Broken {
                slots: table.fail_all(CallError::Transport),
                cause: CallError::Transport,
            };
        },
        Ok(None) => {
            return Arrival::Incomplete;
        },
        Ok(Some(frame)) => frame,
    };
    match decode_response(bytes_as_slice(&frame.meta)) {
        Err(e) => match e.correlation_id {
            None => Arrival::Broken {
                slots: table.fail_all(CallError::Transport),
                cause: CallError::Transport,
            },
            Some(id) => match table.complete(id) {
                Some(slot) => Arrival::Fail { slot, error: CallError::Decode },
                None => Arrival::Discard,
            },
        },
        Ok(meta) => match table.complete(meta.correlation_id) {
            None => Arrival::Discard,
            Some(slot) => {
                let mut controller = Controller::new();
                if meta.error_code != ERROR_OK {
                    match &meta.error_text {
                        Some(text) => {
                            controller.set_failed(text.clone());
                        },
                        None => {},
                    }
                }
                Arrival::Deliver { slot, response: (meta, controller, frame.payload) }
            },
        },
    }
}

/// What becomes of a channel whose table is `before` when what it receives
/// cannot be read: every call under way is handed out to be failed, and the
/// channel is broken by a transport error.
pub open spec fn spec_broken<S>(before: InFlightView<S>, arrival: Arrival<S>, after: InFlightView<S>) -> bool {
    arrival matches Arrival::Broken { slots, cause } && spec_all_slots(before, slots@) && cause
        == CallError::Transport && after == before.after_failure(CallError::Transport)
}

/// What becomes of a response frame that arrives on a channel whose table
/// is `before`.
pub open spec fn spec_matched<S>(
    before: InFlightView<S>,
    frame: FrameView,
    arrival: Arrival<S>,
    after: InFlightView<S>,
) -> bool {
    match spec_decode_response(frame.meta) {
        Err(MetaError { correlation_id: None }) => spec_broken(before, arrival, after),
        Err(MetaError { correlation_id: Some(id) }) => after == before.after_response(id)
            && match before.slot_of(id) {
            Some(awaited) => arrival matches Arrival::Fail { slot, error } && slot == awaited
                && error == CallError::Decode,
            None => arrival is Discard,
        },
        Ok(meta) => after == before.after_response(meta.correlation_id) && match before.slot_of(
            meta.correlation_id,
        ) {
            Some(awaited) => arrival matches Arrival::Deliver { slot, response } && slot
                == awaited && response.0@ == meta && response.1@ == spec_response_controller(
                meta.error_code,
                meta.error_text,
            ) && bytes_seq(response.2) == frame.payload,
            None => arrival is Discard,
        },
    }
}

} // verus!
