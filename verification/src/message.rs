//! What a frame says about itself: the meta of a request and of a response.

use crate::controller::Controller;
use crate::text::str_from_utf8;
use crate::varint::{
    lemma_take_bytes_round_trip, lemma_take_varint_round_trip, spec_has_tag, spec_len_delimited,
    spec_take_bytes, spec_take_varint, spec_varint, write_bytes, write_varint, Reader,
};
use bytes::Bytes;
use vstd::prelude::*;
use vstd::slice::slice_to_vec;
use vstd::string::StringSliceAdditionalSpecFns;
use vstd::utf8::{
    decode_utf8, encode_utf8, encode_utf8_decode_utf8, encode_utf8_valid_utf8, valid_utf8,
};

verus! {

/// Error code of a response that carries a result.
pub const ERROR_OK: i32 = 0;

/// Error code of a response to a call whose handler failed.
pub const ERROR_UNKNOWN: i32 = 1;

/// Error code of a response to a call of a method that is not registered.
pub const ERROR_UNKNOWN_METHOD: i32 = 1002;

/// Error code of a response to a request whose meta could not be read.
pub const ERROR_PARSE: i32 = 1003;

/// Meta of a request: which method is called, and under which correlation id
/// the answer is expected.
#[derive(Clone, Debug, PartialEq, Eq)]
pub struct RequestMeta {
    pub service_name: String,
    pub method_name: String,
    pub correlation_id: u64,
    pub attachment_size: Option<u32>,
    pub authentication_data: Option<Vec<u8>>,
    pub compression_type: Option<u8>,
}

/// Meta of a response: which call it answers, and how that call ended.
#[derive(Clone, Debug, PartialEq, Eq)]
pub struct ResponseMeta {
    pub correlation_id: u64,
    /// Zero on success; every other value is a failure.
    pub error_code: i32,
    pub error_text: Option<String>,
    pub attachment_size: Option<u32>,
    pub compression_type: Option<u8>,
}

/// A request meta as plain values.
pub struct RequestMetaView {
    pub service_name: Seq<char>,
    pub method_name: Seq<char>,
    pub correlation_id: u64,
    pub attachment_size: Option<u32>,
    pub authentication_data: Option<Seq<u8>>,
    pub compression_type: Option<u8>,
}

/// A response meta as plain values.
pub struct ResponseMetaView {
    pub correlation_id: u64,
    pub error_code: i32,
    pub error_text: Option<Seq<char>>,
    pub attachment_size: Option<u32>,
    pub compression_type: Option<u8>,
}

impl View for RequestMeta {
    type V = RequestMetaView;

    open spec fn view(&self) -> RequestMetaView {
        RequestMetaView {
            service_name: self.service_name@,
            method_name: self.method_name@,
            correlation_id: self.correlation_id,
            attachment_size: self.attachment_size,
            authentication_data: match self.authentication_data {
                Some(data) => Some(data@),
                None => None,
            },
            compression_type: self.compression_type,
        }
    }
}

impl View for ResponseMeta {
    type V = ResponseMetaView;

    open spec fn view(&self) -> ResponseMetaView {
        ResponseMetaView {
            correlation_id: self.correlation_id,
            error_code: self.error_code,
            error_text: match self.error_text {
                Some(text) => Some(text@),
                None => None,
            },
            attachment_size: self.attachment_size,
            compression_type: self.compression_type,
        }
    }
}

/// A request as the dispatcher sees it: meta, side band, payload.
pub type RequestPackage = (RequestMeta, Controller, Bytes);

/// A response as the dispatcher leaves it: meta, side band, payload.
pub type ResponsePackage = (ResponseMeta, Controller, Bytes);

impl RequestMeta {
    /// The meta of a call of `service_name`.`method_name` without optional
    /// fields.
    pub fn new(service_name: String, method_name: String, correlation_id: u64) -> (meta: Self)
        ensures
            meta@ == (RequestMetaView {
                service_name: service_name@,
                method_name: method_name@,
                correlation_id,
                attachment_size: None,
                authentication_data: None,
                compression_type: None,
            }),
    {
        RequestMeta {
            service_name,
            method_name,
            correlation_id,
            attachment_size: None,
            authentication_data: None,
            compression_type: None,
        }
    }
}

impl ResponseMeta {
    /// The meta of a successful answer to the call `correlation_id`.
    pub fn success(correlation_id: u64) -> (meta: Self)
        ensures
            meta@ == (ResponseMetaView {
                correlation_id,
                error_code: ERROR_OK,
                error_text: None,
                attachment_size: None,
                compression_type: None,
            }),
    {
        ResponseMeta {
            correlation_id,
            error_code: ERROR_OK,
            error_text: None,
            attachment_size: None,
            compression_type: None,
        }
    }

    /// The meta of a failure of the call `correlation_id`.
    pub fn failure(correlation_id: u64, error_code: i32, error_text: String) -> (meta: Self)
        ensures
            meta@ == (ResponseMetaView {
                correlation_id,
                error_code,
                error_text: Some(error_text@),
                attachment_size: None,
                compression_type: None,
            }),
    {
        ResponseMeta {
            correlation_id,
            error_code,
            error_text: Some(error_text),
            attachment_size: None,
            compression_type: None,
        }
    }

    /// Whether the response carries a result.
    pub fn is_success(&self) -> (ok: bool)
        ensures
            ok == (self@.error_code == ERROR_OK),
    {
        self.error_code == ERROR_OK
    }
}

/// Field tags of a request meta, in the order in which the fields are
/// written.
pub const TAG_SERVICE_NAME: u8 = 0x0A;

pub const TAG_METHOD_NAME: u8 = 0x12;

pub const TAG_REQUEST_CORRELATION_ID: u8 = 0x18;

pub const TAG_REQUEST_ATTACHMENT_SIZE: u8 = 0x20;

pub const TAG_AUTHENTICATION_DATA: u8 = 0x2A;

pub const TAG_REQUEST_COMPRESSION_TYPE: u8 = 0x30;

/// Field tags of a response meta, in the order in which the fields are
/// written.
pub const TAG_RESPONSE_CORRELATION_ID: u8 = 0x08;

pub const TAG_ERROR_CODE: u8 = 0x10;

pub const TAG_ERROR_TEXT: u8 = 0x1A;

pub const TAG_RESPONSE_ATTACHMENT_SIZE: u8 = 0x20;

pub const TAG_RESPONSE_COMPRESSION_TYPE: u8 = 0x28;

/// Why bytes are not a meta.
#[derive(Clone, Copy, Debug, PartialEq, Eq, Structural)]
pub struct MetaError {
    /// The correlation id, where the bytes were sound up to and including
    /// it: the call that the sender is then told about.
    pub correlation_id: Option<u64>,
}

/// An optional number behind its tag: nothing where it is absent.
pub open spec fn spec_optional_varint(tag: u8, value: Option<nat>) -> Seq<u8> {
    match value {
        Some(v) => seq![tag] + spec_varint(v),
        None => Seq::empty(),
    }
}

/// An optional byte string behind its tag: nothing where it is absent.
pub open spec fn spec_optional_bytes(tag: u8, value: Option<Seq<u8>>) -> Seq<u8> {
    match value {
        Some(data) => seq![tag] + spec_len_delimited(data),
        None => Seq::empty(),
    }
}

/// Reads an optional number of at most `max`: absent where `tag` is not
/// next. The outer `None` says that the tag is there and no such number
/// follows it.
pub open spec fn spec_take_optional_varint(b: Seq<u8>, tag: u8, max: u64) -> Option<
    (Option<u64>, Seq<u8>),
> {
    if spec_has_tag(b, tag) {
        match spec_take_varint(b.skip(1)) {
            Some((v, rest)) => if v <= max {
                Some((Some(v), rest))
            } else {
                None
            },
            None => None,
        }
    } else {
        Some((None, b))
    }
}

/// Reads an optional byte string: absent where `tag` is not next. The outer
/// `None` says that the tag is there and no byte string follows it.
pub open spec fn spec_take_optional_bytes(b: Seq<u8>, tag: u8) -> Option<
    (Option<Seq<u8>>, Seq<u8>),
> {
    if spec_has_tag(b, tag) {
        match spec_take_bytes(b.skip(1)) {
            Some((data, rest)) => Some((Some(data), rest)),
            None => None,
        }
    } else {
        Some((None, b))
    }
}

/// A number as an optional field value.
pub open spec fn spec_widen32(v: Option<u32>) -> Option<nat> {
    match v {
        Some(x) => Some(x as nat),
        None => None,
    }
}

/// A number as an optional field value.
pub open spec fn spec_widen8(v: Option<u8>) -> Option<nat> {
    match v {
        Some(x) => Some(x as nat),
        None => None,
    }
}

/// An optional field value as a 32-bit number.
pub open spec fn spec_narrow32(v: Option<u64>) -> Option<u32> {
    match v {
        Some(x) => Some(x as u32),
        None => None,
    }
}

/// An optional field value as an 8-bit number.
pub open spec fn spec_narrow8(v: Option<u64>) -> Option<u8> {
    match v {
        Some(x) => Some(x as u8),
        None => None,
    }
}

/// An error code as it is written: in 64 bits, two's complement.
pub open spec fn spec_code_bits(code: i32) -> u64 {
    if code >= 0 {
        code as u64
    } else {
        (code + 0x1_0000_0000_0000_0000) as u64
    }
}

/// The error code that 64 bits spell, where they spell one.
pub open spec fn spec_code_of_bits(bits: u64) -> Option<i32> {
    if bits <= 0x7fff_ffff {
        Some(bits as i32)
    } else if bits >= 0xffff_ffff_8000_0000 {
        Some((bits - 0x1_0000_0000_0000_0000) as i32)
    } else {
        None
    }
}

/// The optional fields at the end of a request meta.
pub open spec fn spec_encode_request_options(m: RequestMetaView) -> Seq<u8> {
    spec_optional_varint(TAG_REQUEST_ATTACHMENT_SIZE, spec_widen32(m.attachment_size)) + (
    spec_optional_bytes(TAG_AUTHENTICATION_DATA, m.authentication_data) + spec_optional_varint(
        TAG_REQUEST_COMPRESSION_TYPE,
        spec_widen8(m.compression_type),
    ))
}

/// The bytes of a request meta: each field behind its tag, required fields
/// first, names in UTF-8.
pub open spec fn spec_encode_request(m: RequestMetaView) -> Seq<u8> {
    seq![TAG_SERVICE_NAME] + (spec_len_delimited(encode_utf8(m.service_name)) + (
    seq![TAG_METHOD_NAME] + (spec_len_delimited(encode_utf8(m.method_name)) + (
    seq![TAG_REQUEST_CORRELATION_ID] + (spec_varint(m.correlation_id as nat)
        + spec_encode_request_options(m))))))
}

/// Reads the optional fields of a request whose required fields were read.
pub open spec fn spec_decode_request_options(
    service_name: Seq<char>,
    method_name: Seq<char>,
    correlation_id: u64,
    b: Seq<u8>,
) -> Result<RequestMetaView, MetaError> {
    let failed = Err::<RequestMetaView, MetaError>(
        MetaError { correlation_id: Some(correlation_id) },
    );
    match spec_take_optional_varint(b, TAG_REQUEST_ATTACHMENT_SIZE, u32::MAX as u64) {
        None => failed,
        Some((attachment_size, b1)) => match spec_take_optional_bytes(
            b1,
            TAG_AUTHENTICATION_DATA,
        ) {
            None => failed,
            Some((authentication_data, b2)) => match spec_take_optional_varint(
                b2,
                TAG_REQUEST_COMPRESSION_TYPE,
                u8::MAX as u64,
            ) {
                None => failed,
                Some((compression_type, b3)) => if b3.len() != 0 {
                    failed
                } else {
                    Ok(
                        RequestMetaView {
                            service_name,
                            method_name,
                            correlation_id,
                            attachment_size: spec_narrow32(attachment_size),
                            authentication_data,
                            compression_type: spec_narrow8(compression_type),
                        },
                    )
                },
            },
        }
    }
}

/// Reads a name: a tagged byte string that is well-formed UTF-8.
pub open spec fn spec_take_name(b: Seq<u8>, tag: u8) -> Option<(Seq<char>, Seq<u8>)> {
    if spec_has_tag(b, tag) {
        match spec_take_bytes(b.skip(1)) {
            Some((data, rest)) => if valid_utf8(data) {
                Some((decode_utf8(data), rest))
            } else {
                None
            },
            None => None,
        }
    } else {
        None
    }
}

/// The request meta that `b` spells. Fields come in the order in which they
/// are written, numbers in their shortest form, and nothing follows the
/// last field.
pub open spec fn spec_decode_request(b: Seq<u8>) -> Result<RequestMetaView, MetaError> {
    let failed = Err::<RequestMetaView, MetaError>(MetaError { correlation_id: None });
    match spec_take_name(b, TAG_SERVICE_NAME) {
        None => failed,
        Some((service_name, b1)) => match spec_take_name(b1, TAG_METHOD_NAME) {
            None => failed,
            Some((method_name, b2)) => if !spec_has_tag(b2, TAG_REQUEST_CORRELATION_ID) {
                failed
            } else {
                match spec_take_varint(b2.skip(1)) {
                    None => failed,
                    Some((correlation_id, b3)) => spec_decode_request_options(
                        service_name,
                        method_name,
                        correlation_id,
                        b3,
                    ),
                }
            },
        },
    }
}

/// The optional fields at the end of a response meta.
pub open spec fn spec_encode_response_options(m: ResponseMetaView) -> Seq<u8> {
    spec_optional_bytes(
        TAG_ERROR_TEXT,
        match m.error_text {
            Some(text) => Some(encode_utf8(text)),
            None => None,
        },
    ) + (spec_optional_varint(TAG_RESPONSE_ATTACHMENT_SIZE, spec_widen32(m.attachment_size))
        + spec_optional_varint(TAG_RESPONSE_COMPRESSION_TYPE, spec_widen8(m.compression_type)))
}

/// The bytes of a response meta: each field behind its tag, required fields
/// first, text in UTF-8.
pub open spec fn spec_encode_response(m: ResponseMetaView) -> Seq<u8> {
    seq![TAG_RESPONSE_CORRELATION_ID] + (spec_varint(m.correlation_id as nat) + (
    seq![TAG_ERROR_CODE] + (spec_varint(spec_code_bits(m.error_code) as nat)
        + spec_encode_response_options(m))))
}

/// Reads the optional fields of a response whose required fields were read.
pub open spec fn spec_decode_response_options(correlation_id: u64, error_code: i32, b: Seq<u8>) -> Result<
    ResponseMetaView,
    MetaError,
> {
    let failed = Err::<ResponseMetaView, MetaError>(
        MetaError { correlation_id: Some(correlation_id) },
    );
    match spec_take_optional_bytes(b, TAG_ERROR_TEXT) {
        None => failed,
        Some((text, b1)) => if text is Some && !valid_utf8(text->0) {
            failed
        } else {
            match spec_take_optional_varint(b1, TAG_RESPONSE_ATTACHMENT_SIZE, u32::MAX as u64) {
                None => failed,
                Some((attachment_size, b2)) => match spec_take_optional_varint(
                    b2,
                    TAG_RESPONSE_COMPRESSION_TYPE,
                    u8::MAX as u64,
                ) {
                    None => failed,
                    Some((compression_type, b3)) => if b3.len() != 0 {
                        failed
                    } else {
                        Ok(
                            ResponseMetaView {
                                correlation_id,
                                error_code,
                                error_text: match text {
                                    Some(data) => Some(decode_utf8(data)),
                                    None => None,
                                },
                                attachment_size: spec_narrow32(attachment_size),
                                compression_type: spec_narrow8(compression_type),
                            },
                        )
                    },
                },
            }
        },
    }
}

/// The response meta that `b` spells. Fields come in the order in which they
/// are written, numbers in their shortest form, and nothing follows the
/// last field.
pub open spec fn spec_decode_response(b: Seq<u8>) -> Result<ResponseMetaView, MetaError> {
    let failed = Err::<ResponseMetaView, MetaError>(MetaError { correlation_id: None });
    if !spec_has_tag(b, TAG_RESPONSE_CORRELATION_ID) {
        failed
    } else {
        match spec_take_varint(b.skip(1)) {
            None => failed,
            Some((correlation_id, b1)) => {
                let failed_after_id = Err::<ResponseMetaView, MetaError>(
                    MetaError { correlation_id: Some(correlation_id) },
                );
                if !spec_has_tag(b1, TAG_ERROR_CODE) {
                    failed_after_id
                } else {
                    match spec_take_varint(b1.skip(1)) {
                        None => failed_after_id,
                        Some((bits, b2)) => match spec_code_of_bits(bits) {
                            None => failed_after_id,
                            Some(error_code) => spec_decode_response_options(
                                correlation_id,
                                error_code,
                                b2,
                            ),
                        },
                    }
                }
            },
        }
    }
}

/// A request meta is well formed if the length of each of its strings fits
/// in 64 bits.
pub open spec fn spec_request_fits(m: RequestMetaView) -> bool {
    &&& encode_utf8(m.service_name).len() <= u64::MAX
    &&& encode_utf8(m.method_name).len() <= u64::MAX
    &&& m.authentication_data is Some ==> m.authentication_data->0.len() <= u64::MAX
}

/// A response meta is well formed if the length of its error text fits in
/// 64 bits.
pub open spec fn spec_response_fits(m: ResponseMetaView) -> bool {
    m.error_text is Some ==> encode_utf8(m.error_text->0).len() <= u64::MAX
}

/// An optional field value as a number of 64 bits.
pub open spec fn spec_as_u64(value: Option<nat>) -> Option<u64> {
    match value {
        Some(v) => Some(v as u64),
        None => None,
    }
}

/// Reading an optional number that was written gives it back, provided that
/// what follows does not start with the same tag.
pub proof fn lemma_optional_varint_round_trip(tag: u8, value: Option<nat>, max: u64, rest: Seq<u8>)
    requires
        value is Some ==> value->0 <= max,
        value is None ==> !spec_has_tag(rest, tag),
    ensures
        spec_take_optional_varint(spec_optional_varint(tag, value) + rest, tag, max) == Some(
            (spec_as_u64(value), rest),
        ),
{
    let b = spec_optional_varint(tag, value) + rest;
    match value {
        Some(v) => {
            assert(b == seq![tag] + (spec_varint(v) + rest));
            assert(b[0] == tag);
            assert(b.skip(1) == spec_varint(v) + rest);
            lemma_take_varint_round_trip(v as u64, rest);
        },
        None => {
            assert(b == rest);
        },
    }
}

/// Reading an optional byte string that was written gives it back, provided
/// that what follows does not start with the same tag.
pub proof fn lemma_optional_bytes_round_trip(tag: u8, value: Option<Seq<u8>>, rest: Seq<u8>)
    requires
        value is Some ==> value->0.len() <= u64::MAX,
        value is None ==> !spec_has_tag(rest, tag),
    ensures
        spec_take_optional_bytes(spec_optional_bytes(tag, value) + rest, tag) == Some(
            (value, rest),
        ),
{
    let b = spec_optional_bytes(tag, value) + rest;
    match value {
        Some(data) => {
            assert(b == seq![tag] + (spec_len_delimited(data) + rest));
            assert(b[0] == tag);
            assert(b.skip(1) == spec_len_delimited(data) + rest);
            lemma_take_bytes_round_trip(data, rest);
        },
        None => {
            assert(b == rest);
        },
    }
}

/// An optional field starts with its tag or is empty.
proof fn lemma_optional_starts(tag: u8, number: Option<nat>, data: Option<Seq<u8>>)
    ensures
        number is Some ==> spec_optional_varint(tag, number).len() > 0 && spec_optional_varint(
            tag,
            number,
        )[0] == tag,
        number is None ==> spec_optional_varint(tag, number).len() == 0,
        data is Some ==> spec_optional_bytes(tag, data).len() > 0 && spec_optional_bytes(
            tag,
            data,
        )[0] == tag,
        data is None ==> spec_optional_bytes(tag, data).len() == 0,
{
}

/// Reading a name that was written gives it back.
proof fn lemma_name_round_trip(tag: u8, name: Seq<char>, rest: Seq<u8>)
    requires
        encode_utf8(name).len() <= u64::MAX,
    ensures
        spec_take_name(seq![tag] + (spec_len_delimited(encode_utf8(name)) + rest), tag) == Some(
            (name, rest),
        ),
{
    let b = seq![tag] + (spec_len_delimited(encode_utf8(name)) + rest);
    assert(b[0] == tag);
    assert(b.skip(1) == spec_len_delimited(encode_utf8(name)) + rest);
    lemma_take_bytes_round_trip(encode_utf8(name), rest);
    encode_utf8_valid_utf8(name);
    encode_utf8_decode_utf8(name);
}

/// Decoding the bytes of a request meta gives the meta back.
pub proof fn lemma_request_round_trip(m: RequestMetaView)
    requires
        spec_request_fits(m),
    ensures
        spec_decode_request(spec_encode_request(m)) == Ok::<RequestMetaView, MetaError>(m),
{
    let size = spec_optional_varint(TAG_REQUEST_ATTACHMENT_SIZE, spec_widen32(m.attachment_size));
    let auth = spec_optional_bytes(TAG_AUTHENTICATION_DATA, m.authentication_data);
    let kind = spec_optional_varint(TAG_REQUEST_COMPRESSION_TYPE, spec_widen8(m.compression_type));
    let options = spec_encode_request_options(m);
    let from_id = seq![TAG_REQUEST_CORRELATION_ID] + (spec_varint(m.correlation_id as nat)
        + options);
    let from_method = seq![TAG_METHOD_NAME] + (spec_len_delimited(encode_utf8(m.method_name))
        + from_id);
    lemma_name_round_trip(TAG_SERVICE_NAME, m.service_name, from_method);
    lemma_name_round_trip(TAG_METHOD_NAME, m.method_name, from_id);
    assert(from_id[0] == TAG_REQUEST_CORRELATION_ID);
    assert(from_id.skip(1) == spec_varint(m.correlation_id as nat) + options);
    lemma_take_varint_round_trip(m.correlation_id, options);
    lemma_optional_starts(TAG_AUTHENTICATION_DATA, None, m.authentication_data);
    lemma_optional_starts(TAG_REQUEST_COMPRESSION_TYPE, spec_widen8(m.compression_type), None);
    assert(options == size + (auth + kind));
    assert(!spec_has_tag(auth + kind, TAG_REQUEST_ATTACHMENT_SIZE));
    lemma_optional_varint_round_trip(
        TAG_REQUEST_ATTACHMENT_SIZE,
        spec_widen32(m.attachment_size),
        u32::MAX as u64,
        auth + kind,
    );
    assert(!spec_has_tag(kind, TAG_AUTHENTICATION_DATA));
    lemma_optional_bytes_round_trip(TAG_AUTHENTICATION_DATA, m.authentication_data, kind);
    assert(kind == kind + Seq::<u8>::empty());
    lemma_optional_varint_round_trip(
        TAG_REQUEST_COMPRESSION_TYPE,
        spec_widen8(m.compression_type),
        u8::MAX as u64,
        Seq::<u8>::empty(),
    );
    assert(spec_narrow32(spec_as_u64(spec_widen32(m.attachment_size))) == m.attachment_size);
    assert(spec_narrow8(spec_as_u64(spec_widen8(m.compression_type))) == m.compression_type);
}

/// The bits of an error code spell that code.
pub proof fn lemma_code_round_trip(code: i32)
    ensures
        spec_code_of_bits(spec_code_bits(code)) == Some(code),
{
}

/// Decoding the bytes of a response meta gives the meta back.
pub proof fn lemma_response_round_trip(m: ResponseMetaView)
    requires
        spec_response_fits(m),
    ensures
        spec_decode_response(spec_encode_response(m)) == Ok::<ResponseMetaView, MetaError>(m),
{
    let text_bytes = match m.error_text {
        Some(text) => Some(encode_utf8(text)),
        None => None,
    };
    let text = spec_optional_bytes(TAG_ERROR_TEXT, text_bytes);
    let size = spec_optional_varint(TAG_RESPONSE_ATTACHMENT_SIZE, spec_widen32(m.attachment_size));
    let kind = spec_optional_varint(
        TAG_RESPONSE_COMPRESSION_TYPE,
        spec_widen8(m.compression_type),
    );
    let options = spec_encode_response_options(m);
    let bits = spec_code_bits(m.error_code);
    let from_code = seq![TAG_ERROR_CODE] + (spec_varint(bits as nat) + options);
    let b = spec_encode_response(m);
    assert(b[0] == TAG_RESPONSE_CORRELATION_ID);
    assert(b.skip(1) == spec_varint(m.correlation_id as nat) + from_code);
    lemma_take_varint_round_trip(m.correlation_id, from_code);
    assert(from_code[0] == TAG_ERROR_CODE);
    assert(from_code.skip(1) == spec_varint(bits as nat) + options);
    lemma_take_varint_round_trip(bits, options);
    lemma_code_round_trip(m.error_code);
    lemma_optional_starts(TAG_RESPONSE_ATTACHMENT_SIZE, spec_widen32(m.attachment_size), None);
    lemma_optional_starts(TAG_RESPONSE_COMPRESSION_TYPE, spec_widen8(m.compression_type), None);
    assert(options == text + (size + kind));
    assert(!spec_has_tag(size + kind, TAG_ERROR_TEXT));
    lemma_optional_bytes_round_trip(TAG_ERROR_TEXT, text_bytes, size + kind);
    if m.error_text is Some {
        encode_utf8_valid_utf8(m.error_text->0);
        encode_utf8_decode_utf8(m.error_text->0);
    }
    assert(!spec_has_tag(kind, TAG_RESPONSE_ATTACHMENT_SIZE));
    lemma_optional_varint_round_trip(
        TAG_RESPONSE_ATTACHMENT_SIZE,
        spec_widen32(m.attachment_size),
        u32::MAX as u64,
        kind,
    );
    assert(kind == kind + Seq::<u8>::empty());
    lemma_optional_varint_round_trip(
        TAG_RESPONSE_COMPRESSION_TYPE,
        spec_widen8(m.compression_type),
        u8::MAX as u64,
        Seq::<u8>::empty(),
    );
    assert(spec_narrow32(spec_as_u64(spec_widen32(m.attachment_size))) == m.attachment_size);
    assert(spec_narrow8(spec_as_u64(spec_widen8(m.compression_type))) == m.compression_type);
}

/// The bits of an error code as they are written.
pub fn code_bits(code: i32) -> (bits: u64)
    ensures
        bits == spec_code_bits(code),
{
    if code >= 0 {
        code as u64
    } else {
        let below_zero: u64 = (-(code as i64) - 1) as u64;
        u64::MAX - below_zero
    }
}

/// The error code that `bits` spell, if they spell one.
pub fn code_of_bits(bits: u64) -> (code: Option<i32>)
    ensures
        code == spec_code_of_bits(bits),
{
    if bits <= 0x7fff_ffff {
        Some(bits as i32)
    } else if bits >= 0xffff_ffff_8000_0000 {
        let below_zero: i64 = (u64::MAX - bits) as i64;
        Some((-below_zero - 1) as i32)
    } else {
        None
    }
}

fn write_optional_varint(out: &mut Vec<u8>, tag: u8, value: Option<u64>)
    ensures
        final(out)@ == old(out)@ + spec_optional_varint(
            tag,
            match value {
                Some(v) => Some(v as nat),
                None => None,
            },
        ),
{
    match value {
        Some(v) => {
            out.push(tag);
            write_varint(out, v);
            assert(out@ == old(out)@ + (seq![tag] + spec_varint(v as nat)));
        },
        None => {
            assert(out@ == old(out)@ + Seq::<u8>::empty());
        },
    }
}

fn write_optional_bytes(out: &mut Vec<u8>, tag: u8, value: Option<&[u8]>)
    ensures
        final(out)@ == old(out)@ + spec_optional_bytes(
            tag,
            match value {
                Some(data) => Some(data@),
                None => None,
            },
        ),
{
    match value {
        Some(data) => {
            out.push(tag);
            write_bytes(out, data);
            assert(out@ == old(out)@ + (seq![tag] + spec_len_delimited(data@)));
        },
        None => {
            assert(out@ == old(out)@ + Seq::<u8>::empty());
        },
    }
}

fn write_name(out: &mut Vec<u8>, tag: u8, name: &str)
    ensures
        final(out)@ == old(out)@ + (seq![tag] + spec_len_delimited(encode_utf8(name@))),
{
    out.push(tag);
    write_bytes(out, name.as_bytes());
    assert(out@ == old(out)@ + (seq![tag] + spec_len_delimited(encode_utf8(name@))));
}

fn widen32(value: Option<u32>) -> (wide: Option<u64>)
    ensures
        wide is Some <==> value is Some,
        wide is Some ==> wide->0 == value->0,
{
    match value {
        Some(v) => Some(v as u64),
        None => None,
    }
}

fn widen8(value: Option<u8>) -> (wide: Option<u64>)
    ensures
        wide is Some <==> value is Some,
        wide is Some ==> wide->0 == value->0,
{
    match value {
        Some(v) => Some(v as u64),
        None => None,
    }
}

fn take_name(reader: &mut Reader, tag: u8) -> (name: Option<String>)
    ensures
        match spec_take_name(old(reader).rest(), tag) {
            Some((text, rest)) => name is Some && name->0@ == text && final(reader).rest() == rest,
            None => name is None,
        },
{
    if !reader.take_tag(tag) {
        return None;
    }
    match reader.take_bytes() {
        None => None,
        Some(data) => match str_from_utf8(data) {
            Some(text) => Some(text.to_owned()),
            None => None,
        },
    }
}

fn take_optional_varint(reader: &mut Reader, tag: u8, max: u64) -> (value: Option<Option<u64>>)
    ensures
        match spec_take_optional_varint(old(reader).rest(), tag, max) {
            Some((v, rest)) => value == Some(v) && final(reader).rest() == rest,
            None => value is None,
        },
{
    if !reader.take_tag(tag) {
        return Some(None);
    }
    match reader.take_varint() {
        Some(v) => if v <= max {
            Some(Some(v))
        } else {
            None
        },
        None => None,
    }
}

fn take_optional_bytes<'a>(reader: &mut Reader<'a>, tag: u8) -> (value: Option<Option<&'a [u8]>>)
    ensures
        match spec_take_optional_bytes(old(reader).rest(), tag) {
            Some((v, rest)) => value is Some && (value->0 is Some <==> v is Some) && (v is Some
                ==> value->0->0@ == v->0) && final(reader).rest() == rest,
            None => value is None,
        },
{
    if !reader.take_tag(tag) {
        return Some(None);
    }
    match reader.take_bytes() {
        Some(data) => Some(Some(data)),
        None => None,
    }
}

/// Encodes a request meta.
pub fn encode_request(meta: &RequestMeta) -> (bytes: Vec<u8>)
    ensures
        bytes@ == spec_encode_request(meta@),
{
    let mut out: Vec<u8> = Vec::new();
    write_name(&mut out, TAG_SERVICE_NAME, meta.service_name.as_str());
    write_name(&mut out, TAG_METHOD_NAME, meta.method_name.as_str());
    out.push(TAG_REQUEST_CORRELATION_ID);
    write_varint(&mut out, meta.correlation_id);
    write_optional_varint(&mut out, TAG_REQUEST_ATTACHMENT_SIZE, widen32(meta.attachment_size));
    let authentication_data: Option<&[u8]> = match &meta.authentication_data {
        Some(data) => Some(data.as_slice()),
        None => None,
    };
    write_optional_bytes(&mut out, TAG_AUTHENTICATION_DATA, authentication_data);
    write_optional_varint(&mut out, TAG_REQUEST_COMPRESSION_TYPE, widen8(meta.compression_type));
    assert(out@ == spec_encode_request(meta@));
    out
}

/// Decodes a request meta. Bytes that are not the encoding of a request
/// meta are refused; the error names the call where the bytes were sound up
/// to its correlation id.
pub fn decode_request(bytes: &[u8]) -> (r: Result<RequestMeta, MetaError>)
    ensures
        match r {
            Ok(meta) => spec_decode_request(bytes@) == Ok::<RequestMetaView, MetaError>(meta@),
            Err(e) => spec_decode_request(bytes@) == Err::<RequestMetaView, MetaError>(e),
        },
{
    let mut reader = Reader::new(bytes);
    let service_name = match take_name(&mut reader, TAG_SERVICE_NAME) {
        Some(name) => name,
        None => {
            return Err(MetaError { correlation_id: None });
        },
    };
    let method_name = match take_name(&mut reader, TAG_METHOD_NAME) {
        Some(name) => name,
        None => {
            return Err(MetaError { correlation_id: None });
        },
    };
    if !reader.take_tag(TAG_REQUEST_CORRELATION_ID) {
        return Err(MetaError { correlation_id: None });
    }
    let correlation_id = match reader.take_varint() {
        Some(id) => id,
        None => {
            return Err(MetaError { correlation_id: None });
        },
    };
    let failed = MetaError { correlation_id: Some(correlation_id) };
    let attachment_size = match take_optional_varint(
        &mut reader,
        TAG_REQUEST_ATTACHMENT_SIZE,
        u32::MAX as u64,
    ) {
        Some(Some(v)) => Some(v as u32),
        Some(None) => None,
        None => {
            return Err(failed);
        },
    };
    let authentication_data = match take_optional_bytes(&mut reader, TAG_AUTHENTICATION_DATA) {
        Some(Some(data)) => Some(slice_to_vec(data)),
        Some(None) => None,
        None => {
            return Err(failed);
        },
    };
    let compression_type = match take_optional_varint(
        &mut reader,
        TAG_REQUEST_COMPRESSION_TYPE,
        u8::MAX as u64,
    ) {
        Some(Some(v)) => Some(v as u8),
        Some(None) => None,
        None => {
            return Err(failed);
        },
    };
    if !reader.is_empty() {
        return Err(failed);
    }
    Ok(
        RequestMeta {
            service_name,
            method_name,
            correlation_id,
            attachment_size,
            authentication_data,
            compression_type,
        },
    )
}

/// Encodes a response meta.
pub fn encode_response(meta: &ResponseMeta) -> (bytes: Vec<u8>)
    ensures
        bytes@ == spec_encode_response(meta@),
{
    let mut out: Vec<u8> = Vec::new();
    out.push(TAG_RESPONSE_CORRELATION_ID);
    write_varint(&mut out, meta.correlation_id);
    out.push(TAG_ERROR_CODE);
    write_varint(&mut out, code_bits(meta.error_code));
    let error_text: Option<&[u8]> = match &meta.error_text {
        Some(text) => Some(text.as_str().as_bytes()),
        None => None,
    };
    write_optional_bytes(&mut out, TAG_ERROR_TEXT, error_text);
    write_optional_varint(&mut out, TAG_RESPONSE_ATTACHMENT_SIZE, widen32(meta.attachment_size));
    write_optional_varint(&mut out, TAG_RESPONSE_COMPRESSION_TYPE, widen8(meta.compression_type));
    assert(out@ == spec_encode_response(meta@));
    out
}

/// Decodes a response meta. Bytes that are not the encoding of a response
/// meta are refused; the error names the call where the bytes were sound up
/// to its correlation id.
pub fn decode_response(bytes: &[u8]) -> (r: Result<ResponseMeta, MetaError>)
    ensures
        match r {
            Ok(meta) => spec_decode_response(bytes@) == Ok::<ResponseMetaView, MetaError>(meta@),
            Err(e) => spec_decode_response(bytes@) == Err::<ResponseMetaView, MetaError>(e),
        },
{
    let mut reader = Reader::new(bytes);
    if !reader.take_tag(TAG_RESPONSE_CORRELATION_ID) {
        return Err(MetaError { correlation_id: None });
    }
    let correlation_id = match reader.take_varint() {
        Some(id) => id,
        None => {
            return Err(MetaError { correlation_id: None });
        },
    };
    let failed = MetaError { correlation_id: Some(correlation_id) };
    if !reader.take_tag(TAG_ERROR_CODE) {
        return Err(failed);
    }
    let bits = match reader.take_varint() {
        Some(bits) => bits,
        None => {
            return Err(failed);
        },
    };
    let error_code = match code_of_bits(bits) {
        Some(code) => code,
        None => {
            return Err(failed);
        },
    };
    let error_text = match take_optional_bytes(&mut reader, TAG_ERROR_TEXT) {
        Some(Some(data)) => match str_from_utf8(data) {
            Some(text) => Some(text.to_owned()),
            None => {
                return Err(failed);
            },
        },
        Some(None) => None,
        None => {
            return Err(failed);
        },
    };
    let attachment_size = match take_optional_varint(
        &mut reader,
        TAG_RESPONSE_ATTACHMENT_SIZE,
        u32::MAX as u64,
    ) {
        Some(Some(v)) => Some(v as u32),
        Some(None) => None,
        None => {
            return Err(failed);
        },
    };
    let compression_type = match take_optional_varint(
        &mut reader,
        TAG_RESPONSE_COMPRESSION_TYPE,
        u8::MAX as u64,
    ) {
        Some(Some(v)) => Some(v as u8),
        Some(None) => None,
        None => {
            return Err(failed);
        },
    };
    if !reader.is_empty() {
        return Err(failed);
    }
    Ok(ResponseMeta { correlation_id, error_code, error_text, attachment_size, compression_type })
}

} // verus!
