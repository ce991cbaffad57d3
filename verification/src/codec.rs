//! Codecs: how typed messages become payload bytes and back.
//!
//! The runtime moves payloads as opaque bytes. A codec is supplied by the
//! user, one per method and side.

use crate::buffer::{bytes_as_slice, bytes_from_vec, bytes_seq};
use crate::text::str_from_utf8;
use bytes::Bytes;
use vstd::prelude::*;
use vstd::slice::slice_to_vec;
use vstd::string::StringSliceAdditionalSpecFns;
use vstd::utf8::{
    decode_utf8, encode_utf8, encode_utf8_decode_utf8, encode_utf8_valid_utf8, valid_utf8,
};

verus! {

/// A message that cannot be encoded.
#[derive(Clone, Copy, Debug, PartialEq, Eq, Structural)]
pub struct EncodeError;

/// Bytes that are not a message.
#[derive(Clone, Copy, Debug, PartialEq, Eq, Structural)]
pub struct DecodeError;

/// The codec of one side of one method: it decodes the messages that come
/// in and encodes those that go out.
pub trait MethodCodec {
    /// The type of message that comes in.
    type Incoming;

    /// The type of message that goes out.
    type Outgoing;

    /// The bytes of an outgoing message, if it can be encoded.
    spec fn spec_encoded(&self, msg: &Self::Outgoing) -> Option<Seq<u8>>;

    /// Whether `bytes` are an incoming message.
    spec fn spec_decodable(&self, bytes: Seq<u8>) -> bool;

    /// Whether `msg` is the incoming message that `bytes` spell.
    spec fn spec_decodes_to(&self, bytes: Seq<u8>, msg: &Self::Incoming) -> bool;

    /// Encodes an outgoing message.
    fn encode(&self, msg: &Self::Outgoing) -> (r: Result<Bytes, EncodeError>)
        ensures
            r is Ok <==> self.spec_encoded(msg) is Some,
            r is Ok ==> bytes_seq(r->Ok_0) == self.spec_encoded(msg)->0,
    ;

    /// Decodes an incoming message.
    fn decode(&self, bytes: &Bytes) -> (r: Result<Self::Incoming, DecodeError>)
        ensures
            r is Ok <==> self.spec_decodable(bytes_seq(*bytes)),
            r is Ok ==> self.spec_decodes_to(bytes_seq(*bytes), &r->Ok_0),
    ;
}

/// The codec of methods whose messages are plain text: a message is
/// carried as its UTF-8 bytes.
#[derive(Clone, Copy, Debug)]
pub struct TextCodec;

impl MethodCodec for TextCodec {
    type Incoming = String;

    type Outgoing = String;

    open spec fn spec_encoded(&self, msg: &String) -> Option<Seq<u8>> {
        Some(encode_utf8(msg@))
    }

    open spec fn spec_decodable(&self, bytes: Seq<u8>) -> bool {
        valid_utf8(bytes)
    }

    open spec fn spec_decodes_to(&self, bytes: Seq<u8>, msg: &String) -> bool {
        msg@ == decode_utf8(bytes)
    }

    fn encode(&self, msg: &String) -> (r: Result<Bytes, EncodeError>) {
        Ok(bytes_from_vec(slice_to_vec(msg.as_str().as_bytes())))
    }

    fn decode(&self, bytes: &Bytes) -> (r: Result<String, DecodeError>) {
        match str_from_utf8(bytes_as_slice(bytes)) {
            Some(text) => Ok(text.to_owned()),
            None => Err(DecodeError),
        }
    }
}

/// What the text codec encodes it also decodes, to the same text.
pub proof fn lemma_text_round_trip(msg: &String)
    ensures
        TextCodec.spec_encoded(msg) is Some,
        TextCodec.spec_decodable(TextCodec.spec_encoded(msg)->0),
        TextCodec.spec_decodes_to(TextCodec.spec_encoded(msg)->0, msg),
{
    encode_utf8_valid_utf8(msg@);
    encode_utf8_decode_utf8(msg@);
}

} // verus!
