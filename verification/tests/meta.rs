use copra::message::{
    code_bits, code_of_bits, decode_request, decode_response, encode_request, encode_response,
    MetaError, RequestMeta, ResponseMeta, ERROR_OK, ERROR_PARSE, ERROR_UNKNOWN,
    ERROR_UNKNOWN_METHOD,
};
use copra::varint::{write_bytes, write_varint, Reader};

fn varint(v: u64) -> Vec<u8> {
    let mut out = Vec::new();
    write_varint(&mut out, v);
    out
}

fn echo_request(id: u64) -> RequestMeta {
    RequestMeta::new("Echo".to_string(), "echo".to_string(), id)
}

#[test]
fn varint_of_small_numbers_is_one_byte() {
    assert_eq!(varint(0), vec![0x00]);
    assert_eq!(varint(1), vec![0x01]);
    assert_eq!(varint(127), vec![0x7F]);
}

#[test]
fn varint_groups_are_least_significant_first() {
    assert_eq!(varint(128), vec![0x80, 0x01]);
    assert_eq!(varint(300), vec![0xAC, 0x02]);
    assert_eq!(varint(16383), vec![0xFF, 0x7F]);
    assert_eq!(varint(16384), vec![0x80, 0x80, 0x01]);
}

#[test]
fn varint_of_the_largest_number_is_ten_bytes() {
    assert_eq!(
        varint(u64::MAX),
        vec![0xFF, 0xFF, 0xFF, 0xFF, 0xFF, 0xFF, 0xFF, 0xFF, 0xFF, 0x01]
    );
}

#[test]
fn write_varint_appends() {
    let mut out = vec![9, 9];
    write_varint(&mut out, 300);
    assert_eq!(out, vec![9, 9, 0xAC, 0x02]);
}

#[test]
fn write_bytes_puts_the_length_in_front() {
    let mut out = Vec::new();
    write_bytes(&mut out, b"abc");
    assert_eq!(out, vec![3, b'a', b'b', b'c']);
    let mut out = Vec::new();
    write_bytes(&mut out, b"");
    assert_eq!(out, vec![0]);
    let mut out = Vec::new();
    write_bytes(&mut out, &[7u8; 200]);
    assert_eq!(&out[..2], &[0xC8, 0x01]);
    assert_eq!(out.len(), 202);
}

#[test]
fn reader_reads_numbers_back() {
    for v in [0u64, 1, 127, 128, 300, 16384, 1 << 32, u64::MAX - 1, u64::MAX] {
        let mut bytes = varint(v);
        bytes.push(0x55);
        let mut reader = Reader::new(&bytes);
        assert_eq!(reader.take_varint(), Some(v));
        assert!(reader.take_tag(0x55));
        assert!(reader.is_empty());
    }
}

#[test]
fn reader_refuses_padded_numbers() {
    let mut reader = Reader::new(&[0x80, 0x00]);
    assert_eq!(reader.take_varint(), None);
    assert!(reader.take_tag(0x80));
    let mut reader = Reader::new(&[0xAC, 0x82, 0x00]);
    assert_eq!(reader.take_varint(), None);
}

#[test]
fn reader_refuses_unfinished_and_oversized_numbers() {
    let mut reader = Reader::new(&[0x80]);
    assert_eq!(reader.take_varint(), None);
    let mut reader = Reader::new(&[]);
    assert_eq!(reader.take_varint(), None);
    let mut reader = Reader::new(&[0xFF, 0xFF, 0xFF, 0xFF, 0xFF, 0xFF, 0xFF, 0xFF, 0xFF, 0x02]);
    assert_eq!(reader.take_varint(), None);
    let mut reader =
        Reader::new(&[0x80, 0x80, 0x80, 0x80, 0x80, 0x80, 0x80, 0x80, 0x80, 0x80, 0x01]);
    assert_eq!(reader.take_varint(), None);
    let long = vec![0x80u8; 100_000];
    let mut reader = Reader::new(&long);
    assert_eq!(reader.take_varint(), None);
}

#[test]
fn reader_reads_byte_strings_back() {
    let bytes = [3, b'a', b'b', b'c', 0, 1, b'z'];
    let mut reader = Reader::new(&bytes);
    assert_eq!(reader.take_bytes(), Some(&b"abc"[..]));
    assert_eq!(reader.take_bytes(), Some(&b""[..]));
    assert_eq!(reader.take_bytes(), Some(&b"z"[..]));
    assert!(reader.is_empty());
    assert_eq!(reader.take_bytes(), None);
}

#[test]
fn reader_refuses_a_byte_string_that_is_cut_short() {
    let bytes = [3, b'a', b'b'];
    let mut reader = Reader::new(&bytes);
    assert_eq!(reader.take_bytes(), None);
    assert!(reader.take_tag(3));
}

#[test]
fn reader_steps_over_a_tag_only_if_it_is_next() {
    let bytes = [0x0A, 0x12];
    let mut reader = Reader::new(&bytes);
    assert!(!reader.take_tag(0x12));
    assert!(reader.take_tag(0x0A));
    assert!(reader.take_tag(0x12));
    assert!(!reader.take_tag(0x12));
}

#[test]
fn request_meta_bytes_are_tagged_fields_in_order() {
    assert_eq!(
        encode_request(&echo_request(1)),
        vec![0x0A, 4, b'E', b'c', b'h', b'o', 0x12, 4, b'e', b'c', b'h', b'o', 0x18, 1]
    );
}

#[test]
fn request_meta_bytes_with_every_field() {
    let meta = RequestMeta {
        service_name: "S".to_string(),
        method_name: "m".to_string(),
        correlation_id: 300,
        attachment_size: Some(300),
        authentication_data: Some(vec![1, 2, 3]),
        compression_type: Some(2),
    };
    assert_eq!(
        encode_request(&meta),
        vec![
            0x0A, 1, b'S', 0x12, 1, b'm', 0x18, 0xAC, 0x02, 0x20, 0xAC, 0x02, 0x2A, 3, 1, 2, 3,
            0x30, 2
        ]
    );
}

#[test]
fn request_meta_round_trip() {
    let metas = [
        echo_request(0),
        echo_request(u64::MAX),
        RequestMeta::new(String::new(), String::new(), 7),
        RequestMeta::new("sérvice".to_string(), "méthode ☃".to_string(), 1 << 40),
        RequestMeta {
            service_name: "S".to_string(),
            method_name: "m".to_string(),
            correlation_id: 9,
            attachment_size: Some(u32::MAX),
            authentication_data: Some(Vec::new()),
            compression_type: Some(255),
        },
        RequestMeta {
            service_name: "S".to_string(),
            method_name: "m".to_string(),
            correlation_id: 9,
            attachment_size: None,
            authentication_data: Some(vec![0x30, 0x20, 0x2A]),
            compression_type: None,
        },
        RequestMeta {
            service_name: "S".to_string(),
            method_name: "m".to_string(),
            correlation_id: 9,
            attachment_size: Some(0),
            authentication_data: None,
            compression_type: Some(0),
        },
    ];
    for meta in metas.iter() {
        assert_eq!(decode_request(&encode_request(meta)), Ok(meta.clone()));
    }
}

#[test]
fn request_meta_without_its_start_names_no_call() {
    let none = Err(MetaError { correlation_id: None });
    assert_eq!(decode_request(&[]), none);
    assert_eq!(decode_request(&[0x12, 1, b'm']), none);
    assert_eq!(decode_request(&[0x0A, 1, b'S']), none);
    assert_eq!(decode_request(&[0x0A, 1, b'S', 0x12, 1, b'm']), none);
    assert_eq!(decode_request(&[0x0A, 1, b'S', 0x12, 1, b'm', 0x18]), none);
    assert_eq!(decode_request(&[0x0A, 1, b'S', 0x12, 1, b'm', 0x18, 0x80]), none);
    assert_eq!(decode_request(&[0x0A, 5, b'S', 0x12, 1, b'm', 0x18, 1]), none);
}

#[test]
fn request_meta_names_must_be_utf8() {
    let none = Err(MetaError { correlation_id: None });
    assert_eq!(decode_request(&[0x0A, 1, 0xFF, 0x12, 1, b'm', 0x18, 1]), none);
    assert_eq!(decode_request(&[0x0A, 1, b'S', 0x12, 2, 0xC3, 0x28, 0x18, 1]), none);
}

#[test]
fn request_meta_that_fails_after_its_id_names_the_call() {
    let start = [0x0A, 1, b'S', 0x12, 1, b'm', 0x18, 42];
    let named = Err(MetaError { correlation_id: Some(42) });
    let with = |tail: &[u8]| {
        let mut bytes = start.to_vec();
        bytes.extend_from_slice(tail);
        decode_request(&bytes)
    };
    assert!(with(&[]).is_ok());
    assert_eq!(with(&[0x20]), named);
    assert_eq!(with(&[0x20, 0x80, 0x80, 0x80, 0x80, 0x10]), named);
    assert_eq!(with(&[0x2A, 2, 1]), named);
    assert_eq!(with(&[0x30, 0x80, 0x02]), named);
    assert_eq!(with(&[0x30, 1, 0x20, 1]), named);
    assert_eq!(with(&[0x30, 1, 0x30, 1]), named);
    assert_eq!(with(&[0x38, 1]), named);
    assert_eq!(with(&[0x00]), named);
}

#[test]
fn request_meta_limits_of_optional_numbers() {
    let start = [0x0A, 1, b'S', 0x12, 1, b'm', 0x18, 1];
    let with = |tail: &[u8]| {
        let mut bytes = start.to_vec();
        bytes.extend_from_slice(tail);
        decode_request(&bytes)
    };
    let meta = with(&[0x20, 0xFF, 0xFF, 0xFF, 0xFF, 0x0F]).unwrap();
    assert_eq!(meta.attachment_size, Some(u32::MAX));
    let meta = with(&[0x30, 0xFF, 0x01]).unwrap();
    assert_eq!(meta.compression_type, Some(255));
}

#[test]
fn response_meta_bytes_are_tagged_fields_in_order() {
    assert_eq!(encode_response(&ResponseMeta::success(1)), vec![0x08, 1, 0x10, 0]);
    assert_eq!(
        encode_response(&ResponseMeta::failure(300, 1, "x".to_string())),
        vec![0x08, 0xAC, 0x02, 0x10, 1, 0x1A, 1, b'x']
    );
    let full = ResponseMeta {
        correlation_id: 5,
        error_code: 0,
        error_text: Some(String::new()),
        attachment_size: Some(1),
        compression_type: Some(3),
    };
    assert_eq!(encode_response(&full), vec![0x08, 5, 0x10, 0, 0x1A, 0, 0x20, 1, 0x28, 3]);
}

#[test]
fn negative_error_code_is_written_in_64_bits() {
    let meta = ResponseMeta::failure(1, -1, "e".to_string());
    assert_eq!(
        encode_response(&meta),
        vec![
            0x08, 1, 0x10, 0xFF, 0xFF, 0xFF, 0xFF, 0xFF, 0xFF, 0xFF, 0xFF, 0xFF, 0x01, 0x1A, 1,
            b'e'
        ]
    );
}

#[test]
fn error_code_bits() {
    assert_eq!(code_bits(0), 0);
    assert_eq!(code_bits(1002), 1002);
    assert_eq!(code_bits(i32::MAX), 0x7FFF_FFFF);
    assert_eq!(code_bits(-1), u64::MAX);
    assert_eq!(code_bits(i32::MIN), 0xFFFF_FFFF_8000_0000);
    assert_eq!(code_of_bits(0), Some(0));
    assert_eq!(code_of_bits(0x7FFF_FFFF), Some(i32::MAX));
    assert_eq!(code_of_bits(0x8000_0000), None);
    assert_eq!(code_of_bits(0xFFFF_FFFF_7FFF_FFFF), None);
    assert_eq!(code_of_bits(0xFFFF_FFFF_8000_0000), Some(i32::MIN));
    assert_eq!(code_of_bits(u64::MAX), Some(-1));
}

#[test]
fn response_meta_round_trip() {
    let metas = [
        ResponseMeta::success(0),
        ResponseMeta::success(u64::MAX),
        ResponseMeta::failure(3, ERROR_UNKNOWN, "Unknown error".to_string()),
        ResponseMeta::failure(3, ERROR_UNKNOWN_METHOD, "unknown method".to_string()),
        ResponseMeta::failure(3, ERROR_PARSE, "grüße".to_string()),
        ResponseMeta::failure(3, i32::MIN, String::new()),
        ResponseMeta::failure(3, i32::MAX, "x".to_string()),
        ResponseMeta {
            correlation_id: 1,
            error_code: -7,
            error_text: None,
            attachment_size: Some(12),
            compression_type: Some(1),
        },
    ];
    for meta in metas.iter() {
        assert_eq!(decode_response(&encode_response(meta)), Ok(meta.clone()));
    }
}

#[test]
fn response_meta_errors_name_the_call_once_its_id_is_read() {
    let none = Err(MetaError { correlation_id: None });
    let named = Err(MetaError { correlation_id: Some(9) });
    assert_eq!(decode_response(&[]), none);
    assert_eq!(decode_response(&[0x10, 0]), none);
    assert_eq!(decode_response(&[0x08]), none);
    assert_eq!(decode_response(&[0x08, 0x80, 0x00]), none);
    assert_eq!(decode_response(&[0x08, 9]), named);
    assert_eq!(decode_response(&[0x08, 9, 0x10]), named);
    assert_eq!(decode_response(&[0x08, 9, 0x10, 0x80, 0x80, 0x80, 0x80, 0x08]), named);
    assert_eq!(decode_response(&[0x08, 9, 0x10, 0, 0x1A, 1, 0xFF]), named);
    assert_eq!(decode_response(&[0x08, 9, 0x10, 0, 0x1A, 2, b'x']), named);
    assert_eq!(decode_response(&[0x08, 9, 0x10, 0, 0x28, 1, 0x20, 1]), named);
    assert_eq!(decode_response(&[0x08, 9, 0x10, 0, 0x20, 0x80, 0x80, 0x80, 0x80, 0x10]), named);
    assert_eq!(decode_response(&[0x08, 9, 0x10, 0, 0x28, 0x80, 0x02]), named);
    assert_eq!(decode_response(&[0x08, 9, 0x10, 0, 0xFF]), named);
    assert!(decode_response(&[0x08, 9, 0x10, 0]).is_ok());
}

#[test]
fn reserved_error_codes() {
    assert_eq!(ERROR_OK, 0);
    assert_eq!(ERROR_UNKNOWN, 1);
    assert_ne!(ERROR_UNKNOWN_METHOD, 0);
    assert_ne!(ERROR_PARSE, 0);
    assert!(ResponseMeta::success(1).is_success());
    assert!(!ResponseMeta::failure(1, 77, "?".to_string()).is_success());
}
