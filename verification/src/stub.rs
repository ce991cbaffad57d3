//! Typed call sites: what a stub does around a call, and what the server
//! does around a handler, to get from typed messages to payload bytes and
//! back.

use crate::buffer::bytes_seq;
use crate::channel::CallError;
use crate::codec::MethodCodec;
use crate::controller::Controller;
use crate::message::{ResponsePackage, ERROR_OK};
use crate::service::MethodError;
use bytes::Bytes;
use vstd::prelude::*;
use vstd::string::StringExecFns;

verus! {

/// How a typed call can fail.
#[derive(Clone, Copy, Debug, PartialEq, Eq, Structural)]
pub enum StubError {
    /// The request could not be encoded.
    Encode,
    /// The response's payload could not be decoded.
    Decode,
    /// The call failed on the channel.
    Call(CallError),
    /// The server answered with this error code, which is not zero.
    Failed(i32),
}

/// Encodes the request of a typed call.
pub fn encode_call<C: MethodCodec>(codec: &C, request: &C::Outgoing) -> (r: Result<Bytes, StubError>)
    ensures
        r is Ok <==> codec.spec_encoded(request) is Some,
        r is Ok ==> bytes_seq(r->Ok_0) == codec.spec_encoded(request)->0,
        r is Err ==> r->Err_0 == StubError::Encode,
{
    match codec.encode(request) {
        Ok(payload) => Ok(payload),
        Err(_) => Err(StubError::Encode),
    }
}

/// Turns what a call ended with into what the typed caller gets.
///
/// A call that failed on the channel fails with that error. A response
/// with an error code other than zero is a failure, whatever the code. The
/// payload of a successful response is decoded; the controller comes along.
pub fn finish_call<C: MethodCodec>(codec: &C, outcome: Result<ResponsePackage, CallError>) -> (r: Result<
    (C::Incoming, Controller),
    StubError,
>)
    ensures
        match outcome {
            Err(e) => r == Err::<(C::Incoming, Controller), StubError>(StubError::Call(e)),
            Ok((meta, controller, body)) => if meta@.error_code != ERROR_OK {
                r == Err::<(C::Incoming, Controller), StubError>(
                    StubError::Failed(meta@.error_code),
                )
            } else if !codec.spec_decodable(bytes_seq(body)) {
                r == Err::<(C::Incoming, Controller), StubError>(StubError::Decode)
            } else {
                r is Ok && codec.spec_decodes_to(bytes_seq(body), &r->Ok_0.0) && r->Ok_0.1
                    == controller
            },
        },
{
    match outcome {
        Err(e) => Err(StubError::Call(e)),
        Ok((meta, controller, body)) => {
            if meta.error_code != ERROR_OK {
                return Err(StubError::Failed(meta.error_code));
            }
            match codec.decode(&body) {
                Ok(message) => Ok((message, controller)),
                Err(_) => Err(StubError::Decode),
            }
        },
    }
}

/// Text of the failure of a call whose payload the server could not decode.
pub open spec fn spec_undecodable_text() -> Seq<char> {
    "request cannot be decoded"@
}

/// Text of the failure of a call whose response the server could not encode.
pub open spec fn spec_unencodable_text() -> Seq<char> {
    "response cannot be encoded"@
}

/// Decodes the payload of a request for a typed handler. A payload that
/// cannot be decoded fails the call.
pub fn decode_call<C: MethodCodec>(codec: &C, body: &Bytes) -> (r: Result<C::Incoming, MethodError>)
    ensures
        r is Ok <==> codec.spec_decodable(bytes_seq(*body)),
        r is Ok ==> codec.spec_decodes_to(bytes_seq(*body), &r->Ok_0),
        r is Err ==> (r->Err_0 matches MethodError::HandlerFailed(text) && text@
            == spec_undecodable_text()),
{
    match codec.decode(body) {
        Ok(message) => Ok(message),
        Err(_) => Err(MethodError::HandlerFailed(String::from_str("request cannot be decoded"))),
    }
}

/// Encodes what a typed handler returned. A failure stays what it is; a
/// response that cannot be encoded becomes one.
pub fn encode_reply<C: MethodCodec>(codec: &C, reply: Result<(C::Outgoing, Controller), MethodError>) -> (r: Result<
    (Bytes, Controller),
    MethodError,
>)
    ensures
        match reply {
            Err(e) => r == Err::<(Bytes, Controller), MethodError>(e),
            Ok((message, controller)) => match codec.spec_encoded(&message) {
                Some(bytes) => r is Ok && bytes_seq(r->Ok_0.0) == bytes && r->Ok_0.1 == controller,
                None => r is Err && (r->Err_0 matches MethodError::HandlerFailed(text) && text@
                    == spec_unencodable_text()),
            },
        },
{
    match reply {
        Err(e) => Err(e),
        Ok((message, controller)) => match codec.encode(&message) {
            Ok(body) => Ok((body, controller)),
            Err(_) => Err(
                MethodError::HandlerFailed(String::from_str("response cannot be encoded")),
            ),
        },
    }
}

} // verus!
