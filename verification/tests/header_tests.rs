use car_header::{decode_carv1_header, decode_carv2_header, encode_carv2_fields};
use car_header::DecodeCarHeaderError;

// Map opener for `n` entries (n < 24).
fn map_head(n: u8) -> u8 {
    0xa0 + n
}

// The CBOR text-string encoding of "roots".
fn key_roots() -> Vec<u8> {
    vec![0x65, b'r', b'o', b'o', b't', b's']
}

// The CBOR text-string encoding of "version".
fn key_version() -> Vec<u8> {
    vec![0x67, b'v', b'e', b'r', b's', b'i', b'o', b'n']
}

// A tag-42 link whose identifier is a version-0 CID over `digest`.
fn link(digest: [u8; 32]) -> Vec<u8> {
    let mut out = vec![0xd8, 0x2a, 0x58, 0x23, 0x00, 0x12, 0x20];
    out.extend_from_slice(&digest);
    out
}

// The canonical text form of the version-0 CID over `digest`.
fn cid_string(digest: [u8; 32]) -> String {
    let mut bytes = vec![0x12, 0x20];
    bytes.extend_from_slice(&digest);
    let cid = libipld_core::cid::Cid::try_from(&bytes[..]).unwrap();
    cid.to_string()
}

// A map {"roots": <roots value>, "version": <version value>}.
fn header_map(roots_value: &[u8], version_value: &[u8]) -> Vec<u8> {
    let mut out = vec![map_head(2)];
    out.extend_from_slice(&key_roots());
    out.extend_from_slice(roots_value);
    out.extend_from_slice(&key_version());
    out.extend_from_slice(version_value);
    out
}

#[test]
fn v1_single_root_accepted() {
    let digest = [0xabu8; 32];
    let mut roots_value = vec![0x81];
    roots_value.extend_from_slice(&link(digest));
    let bytes = header_map(&roots_value, &[0x01]);
    let r = decode_carv1_header(&bytes);
    assert_eq!(r.error.error_code, 0);
    assert!(r.error.error.is_empty());
    assert_eq!(r.data.version, 1);
    assert_eq!(r.data.roots.len(), 1);
    assert_eq!(r.data.roots[0], cid_string(digest));
}

#[test]
fn v1_roots_keep_their_order() {
    let d1 = [0x11u8; 32];
    let d2 = [0x22u8; 32];
    let mut roots_value = vec![0x82];
    roots_value.extend_from_slice(&link(d1));
    roots_value.extend_from_slice(&link(d2));
    let bytes = header_map(&roots_value, &[0x01]);
    let r = decode_carv1_header(&bytes);
    assert_eq!(r.error.error_code, 0);
    assert_eq!(r.data.version, 1);
    assert_eq!(r.data.roots.len(), 2);
    assert_eq!(r.data.roots[0], cid_string(d1));
    assert_eq!(r.data.roots[1], cid_string(d2));
}

#[test]
fn v1_missing_roots_fails_20() {
    let mut bytes = vec![map_head(1)];
    bytes.extend_from_slice(&key_version());
    bytes.push(0x01);
    let r = decode_carv1_header(&bytes);
    assert_eq!(r.error.error_code, 20);
    assert_eq!(r.error.error, "Car header, no roots found.");
    assert_eq!(r.data.version, 0);
    assert!(r.data.roots.is_empty());
}

#[test]
fn v1_version_two_fails_30() {
    let mut bytes = vec![map_head(1)];
    bytes.extend_from_slice(&key_version());
    bytes.push(0x02);
    let r = decode_carv1_header(&bytes);
    assert_eq!(r.error.error_code, 30);
    assert_eq!(r.error.error, "Car header version is unsupported: `2`");
    assert_eq!(r.data.version, 0);
}

#[test]
fn v1_malformed_bytes_fail_1() {
    let bytes = vec![0xffu8];
    let r = decode_carv1_header(&bytes);
    assert_eq!(r.error.error_code, 1);
    assert!(!r.error.error.is_empty());
    assert_eq!(r.data.version, 0);
    assert!(r.data.roots.is_empty());
}

#[test]
fn v1_non_map_fails_10() {
    let bytes = vec![0x01u8];
    let r = decode_carv1_header(&bytes);
    assert_eq!(r.error.error_code, 10);
    assert!(!r.error.error.is_empty());
}

#[test]
fn v1_roots_map_instead_of_list_fails_200() {
    let bytes = header_map(&[0xa0], &[0x01]);
    let r = decode_carv1_header(&bytes);
    assert_eq!(r.error.error_code, 200);
    assert_eq!(
        r.error.error,
        "Internal error with code Car header, roots key expected cbor List but got Map with 0 entries"
    );
}

#[test]
fn v1_roots_non_link_element_fails_100() {
    let bytes = header_map(&[0x81, 0x07], &[0x01]);
    let r = decode_carv1_header(&bytes);
    assert_eq!(r.error.error_code, 100);
    assert_eq!(
        r.error.error,
        "Internal error with code Car header, roots key elements expected cbor Link but got Integer(7)"
    );
}

#[test]
fn v1_missing_version_fails_400() {
    let mut bytes = vec![map_head(1)];
    bytes.extend_from_slice(&key_roots());
    bytes.push(0x80);
    let r = decode_carv1_header(&bytes);
    assert_eq!(r.error.error_code, 400);
    assert_eq!(
        r.error.error,
        "Internal error with code Car header, expected header key version, keys: [roots]"
    );
}

#[test]
fn v1_version_text_fails_300() {
    let bytes = header_map(&[0x80], &[0x61, b'1']);
    let r = decode_carv1_header(&bytes);
    assert_eq!(r.error.error_code, 300);
    assert!(!r.error.error.is_empty());
}

#[test]
fn v1_same_bytes_same_result() {
    let bytes = header_map(&[0x80], &[0x61, b'1']);
    let r1 = decode_carv1_header(&bytes);
    let r2 = decode_carv1_header(&bytes);
    assert_eq!(r1.error.error_code, r2.error.error_code);
    assert_eq!(r1.error.error, r2.error.error);
    assert_eq!(r1.data.version, r2.data.version);
    assert_eq!(r1.data.roots, r2.data.roots);
}

// The pragma region of a well-formed version-2 buffer: one unused byte,
// then the ten-byte mini-header {"version": 2}.
fn v2_pragma() -> Vec<u8> {
    let mut out = vec![0x00, map_head(1)];
    out.extend_from_slice(&key_version());
    out.push(0x02);
    out
}

#[test]
fn v2_no_roots_accepted_with_stated_endianness() {
    let mut bytes = v2_pragma();
    bytes.extend_from_slice(&[0, 0, 0, 0, 0, 0, 0, 1]); // characteristics word 0, big-endian
    bytes.extend_from_slice(&[0, 0, 0, 0, 0, 0, 0, 2]); // characteristics word 1, big-endian
    bytes.extend_from_slice(&[1, 0, 0, 0, 0, 0, 0, 0]); // data offset, little-endian
    bytes.extend_from_slice(&[0x40, 0, 0, 0, 0, 0, 0, 0]); // data size, little-endian
    bytes.extend_from_slice(&[1, 2, 3, 4, 5, 6, 7, 8]); // index offset, little-endian
    assert_eq!(bytes.len(), 51);
    let r = decode_carv2_header(&bytes);
    assert_eq!(r.error.error_code, 0);
    assert!(r.error.error.is_empty());
    assert_eq!(r.data.characteristics.data[0], 1);
    assert_eq!(r.data.characteristics.data[1], 2);
    assert_eq!(r.data.data_offset, 1);
    assert_eq!(r.data.data_size, 0x40);
    assert_eq!(r.data.index_offset, 0x0807060504030201);
}

#[test]
fn v2_short_buffer_fails_500() {
    let bytes = vec![0u8; 50];
    let r = decode_carv2_header(&bytes);
    assert_eq!(r.error.error_code, 500);
    assert!(!r.error.error.is_empty());
    assert_eq!(r.data.characteristics.data, [0, 0]);
    assert_eq!(r.data.data_offset, 0);
    assert_eq!(r.data.data_size, 0);
    assert_eq!(r.data.index_offset, 0);
}

#[test]
fn v2_mini_header_version_one_fails_30() {
    let mut bytes = vec![0x00, map_head(1)];
    bytes.extend_from_slice(&key_version());
    bytes.push(0x01);
    bytes.extend_from_slice(&[0u8; 40]);
    let r = decode_carv2_header(&bytes);
    assert_eq!(r.error.error_code, 30);
    assert!(!r.error.error.is_empty());
    assert_eq!(r.data.characteristics.data, [0, 0]);
    assert_eq!(r.data.data_offset, 0);
}

#[test]
fn v2_fields_round_trip_to_their_bytes() {
    let mut bytes = v2_pragma();
    bytes.extend_from_slice(&[0xde, 0xad, 0xbe, 0xef, 0x01, 0x02, 0x03, 0x04]);
    bytes.extend_from_slice(&[0x00, 0x11, 0x22, 0x33, 0x44, 0x55, 0x66, 0x77]);
    bytes.extend_from_slice(&[0x33, 0, 0, 0, 0, 0, 0, 0]);
    bytes.extend_from_slice(&[0x10, 0x27, 0, 0, 0, 0, 0, 0]);
    bytes.extend_from_slice(&[0, 0, 0, 0, 0, 0, 0, 0x80]);
    let r = decode_carv2_header(&bytes);
    assert_eq!(r.error.error_code, 0);
    let out = encode_carv2_fields(&r.data);
    assert_eq!(out, bytes[11..51].to_vec());
}

#[test]
fn error_codes_are_stable() {
    let e1 = DecodeCarHeaderError::HeaderCborDecodingError { reason: String::from("x") };
    let e2 = DecodeCarHeaderError::HeaderCborMapExpectedError { reason: String::from("x") };
    let e3 = DecodeCarHeaderError::HeaderRootsExpectedError;
    let e4 = DecodeCarHeaderError::HeaderVersionNotSupportedError { version: String::from("9") };
    let e5 = DecodeCarHeaderError::HeaderTooShortError;
    let e6 = DecodeCarHeaderError::InternalError(String::from("x"), 400);
    assert_eq!(e1.to_u16(), 1);
    assert_eq!(e2.to_u16(), 10);
    assert_eq!(e3.to_u16(), 20);
    assert_eq!(e4.to_u16(), 30);
    assert_eq!(e5.to_u16(), 500);
    assert_eq!(e6.to_u16(), 400);
}

#[test]
fn error_messages_carry_their_detail() {
    let e = DecodeCarHeaderError::HeaderVersionNotSupportedError { version: String::from("9") };
    assert_eq!(e.to_message(), "Car header version is unsupported: `9`");
    let e = DecodeCarHeaderError::HeaderRootsExpectedError;
    assert_eq!(e.to_message(), "Car header, no roots found.");
}

#[test]
fn v1_empty_roots_list_fails_20() {
    let bytes = header_map(&[0x80], &[0x01]);
    let r = decode_carv1_header(&bytes);
    assert_eq!(r.error.error_code, 20);
    assert_eq!(r.error.error, "Car header, no roots found.");
    assert_eq!(r.data.version, 0);
    assert!(r.data.roots.is_empty());
}

#[test]
fn v1_roots_text_fails_200_with_value_dump() {
    let bytes = header_map(&[0x61, b'x'], &[0x01]);
    let r = decode_carv1_header(&bytes);
    assert_eq!(r.error.error_code, 200);
    assert_eq!(
        r.error.error,
        "Internal error with code Car header, roots key expected cbor List but got Value(\"x\")"
    );
}

#[test]
fn v1_roots_negative_integer_element_fails_100() {
    let bytes = header_map(&[0x81, 0x24], &[0x01]);
    let r = decode_carv1_header(&bytes);
    assert_eq!(r.error.error_code, 100);
    assert_eq!(
        r.error.error,
        "Internal error with code Car header, roots key elements expected cbor Link but got Integer(-5)"
    );
}

#[test]
fn v1_negative_version_wraps_to_unsigned() {
    let mut bytes = vec![map_head(1)];
    bytes.extend_from_slice(&key_version());
    bytes.push(0x20); // the integer -1
    let r = decode_carv1_header(&bytes);
    assert_eq!(r.error.error_code, 30);
    assert_eq!(
        r.error.error,
        "Car header version is unsupported: `18446744073709551615`"
    );
}
