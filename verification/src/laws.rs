//! What holds of a call from end to end.

use crate::channel::InFlightView;
use crate::client::spec_call_meta;
use crate::dispatcher::MethodKey;
use crate::message::{
    lemma_request_round_trip, lemma_response_round_trip, spec_decode_request,
    spec_decode_response, spec_encode_request, spec_encode_response, spec_request_fits,
    spec_response_fits, MetaError, RequestMetaView, ResponseMetaView,
};
use crate::protocol::{
    lemma_frame_round_trip, spec_frame, spec_pull, FrameError, FrameView, FramerState, Pull,
};
use crate::server::{spec_outcome_meta, spec_route};
use vstd::prelude::*;

verus! {

/// Frame round trip, for requests: the frame emitted for a well-formed meta
/// and a payload parses back to that meta and that payload, and what follows
/// the frame is left in the buffer.
pub proof fn lemma_request_frame_round_trip(
    meta: RequestMetaView,
    payload: Seq<u8>,
    max: u32,
    rest: Seq<u8>,
)
    requires
        spec_request_fits(meta),
        spec_encode_request(meta).len() + payload.len() <= max,
    ensures
        spec_pull(
            FramerState::NeedHeader,
            max,
            spec_frame(spec_encode_request(meta), payload) + rest,
        ) == (Pull {
            state: FramerState::NeedHeader,
            rest,
            outcome: Ok(Some(FrameView { meta: spec_encode_request(meta), payload })),
        }),
        spec_decode_request(spec_encode_request(meta)) == Ok::<RequestMetaView, MetaError>(meta),
{
    lemma_frame_round_trip(spec_encode_request(meta), payload, max, rest);
    lemma_request_round_trip(meta);
}

/// Frame round trip, for responses: the frame emitted for a well-formed meta
/// and a payload parses back to that meta and that payload, and what follows
/// the frame is left in the buffer.
pub proof fn lemma_response_frame_round_trip(
    meta: ResponseMetaView,
    payload: Seq<u8>,
    max: u32,
    rest: Seq<u8>,
)
    requires
        spec_response_fits(meta),
        spec_encode_response(meta).len() + payload.len() <= max,
    ensures
        spec_pull(
            FramerState::NeedHeader,
            max,
            spec_frame(spec_encode_response(meta), payload) + rest,
        ) == (Pull {
            state: FramerState::NeedHeader,
            rest,
            outcome: Ok(Some(FrameView { meta: spec_encode_response(meta), payload })),
        }),
        spec_decode_response(spec_encode_response(meta)) == Ok::<ResponseMetaView, MetaError>(
            meta,
        ),
{
    lemma_frame_round_trip(spec_encode_response(meta), payload, max, rest);
    lemma_response_round_trip(meta);
}

/// Dispatch determinism: a call of a method for which a handler is
/// registered reaches that handler with the caller's payload, and what the
/// handler returns reaches the caller's slot.
///
/// In steps: the server pulls the request frame whole, reads the meta that
/// the client wrote, and routes it to the handler; the response that carries
/// the handler's output is pulled whole by the client, reads as a success
/// under the call's correlation id, and that id leads to the slot that the
/// call left.
pub proof fn lemma_call_reaches_handler_and_returns<H, S>(
    registry: Map<MethodKey, H>,
    handler: H,
    service_name: Seq<char>,
    method_name: Seq<char>,
    payload: Seq<u8>,
    output: Seq<u8>,
    table: InFlightView<S>,
    slot: S,
    max: u32,
)
    requires
        registry.dom().contains((service_name, method_name)),
        registry[(service_name, method_name)] == handler,
        table.refusal() is None,
        spec_request_fits(spec_call_meta(service_name, method_name, table.next_id)),
        spec_encode_request(spec_call_meta(service_name, method_name, table.next_id)).len()
            + payload.len() <= max,
        spec_encode_response(spec_outcome_meta(table.next_id, None)).len() + output.len() <= max,
    ensures
        ({
            let request = spec_call_meta(service_name, method_name, table.next_id);
            let response = spec_outcome_meta(table.next_id, None);
            &&& spec_pull(
                FramerState::NeedHeader,
                max,
                spec_frame(spec_encode_request(request), payload),
            ).outcome == Ok::<Option<FrameView>, FrameError>(
                Some(FrameView { meta: spec_encode_request(request), payload }),
            )
            &&& spec_decode_request(spec_encode_request(request)) == Ok::<
                RequestMetaView,
                MetaError,
            >(request)
            &&& spec_route(registry, request) == Some(handler)
            &&& spec_pull(
                FramerState::NeedHeader,
                max,
                spec_frame(spec_encode_response(response), output),
            ).outcome == Ok::<Option<FrameView>, FrameError>(
                Some(FrameView { meta: spec_encode_response(response), payload: output }),
            )
            &&& spec_decode_response(spec_encode_response(response)) == Ok::<
                ResponseMetaView,
                MetaError,
            >(response)
            &&& table.after_begin(slot).slot_of(response.correlation_id) == Some(slot)
        }),
{
    let request = spec_call_meta(service_name, method_name, table.next_id);
    let response = spec_outcome_meta(table.next_id, None);
    let nothing = Seq::<u8>::empty();
    lemma_request_frame_round_trip(request, payload, max, nothing);
    assert(spec_frame(spec_encode_request(request), payload) + nothing == spec_frame(
        spec_encode_request(request),
        payload,
    ));
    lemma_response_frame_round_trip(response, output, max, nothing);
    assert(spec_frame(spec_encode_response(response), output) + nothing == spec_frame(
        spec_encode_response(response),
        output,
    ));
}

} // verus!
