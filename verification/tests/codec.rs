use ssrp::get_instance_request;
use ssrp::get_unicast_browse_request;
use ssrp::parse_server_response;
use ssrp::ParseError;

#[test]
fn ensure_instance_request_builds_correctly() {
    let expected = vec![0x04, 0x41, 0];
    let actual = get_instance_request("A");
    assert_eq!(expected, actual);
}

#[test]
fn test_response_parser() {
    let input = [
        5, 87, 0, 83, 101, 114, 118, 101, 114, 78, 97, 109, 101, 59, 84, 65, 78, 71, 79, 51, 59,
        73, 110, 115, 116, 97, 110, 99, 101, 78, 97, 109, 101, 59, 83, 81, 76, 69, 88, 80, 82, 69,
        83, 83, 59, 73, 115, 67, 108, 117, 115, 116, 101, 114, 101, 100, 59, 78, 111, 59, 86, 101,
        114, 115, 105, 111, 110, 59, 49, 53, 46, 48, 46, 50, 48, 48, 48, 46, 53, 59, 116, 99, 112,
        59, 49, 50, 56, 53, 59, 59,
    ];
    let actual = parse_server_response(&input).unwrap();

    println!("Data: {:?}", actual.data);
    assert_eq!(actual.data.len(), 87); //the length is stored in bytes 1,2 above.

    // The data should terminate with two semicolons
    assert_eq!(actual.data[actual.data.len() - 2..], *";;");
}

#[test]
fn browse_request_is_single_tag_byte() {
    assert_eq!(get_unicast_browse_request(), [0x03]);
}

#[test]
fn instance_request_appends_name_bytes_and_nul() {
    let actual = get_instance_request("SQLEXPRESS");
    let mut expected = vec![0x04];
    expected.extend_from_slice("SQLEXPRESS".as_bytes());
    expected.push(0x00);
    assert_eq!(expected, actual);
    assert_eq!(actual.len(), "SQLEXPRESS".len() + 2);
}

#[test]
fn instance_request_encodes_multibyte_name() {
    // U+00E9 encodes as the two bytes 0xC3 0xA9, not as its code point.
    let actual = get_instance_request("\u{e9}");
    assert_eq!(actual, vec![0x04, 0xC3, 0xA9, 0x00]);
}

#[test]
fn empty_buffer_is_malformed() {
    assert_eq!(
        parse_server_response(&[]).unwrap_err(),
        ParseError::MalformedResponse
    );
}

#[test]
fn truncated_header_is_malformed() {
    assert_eq!(
        parse_server_response(&[0x05, 0x00]).unwrap_err(),
        ParseError::MalformedResponse
    );
}

#[test]
fn wrong_tag_is_rejected() {
    assert_eq!(
        parse_server_response(&[0x04, 0x00, 0x00]).unwrap_err(),
        ParseError::UnexpectedMessageTag
    );
}

#[test]
fn short_buffer_with_wrong_tag_is_malformed() {
    // The header-length check runs before the tag check.
    assert_eq!(
        parse_server_response(&[0x07]).unwrap_err(),
        ParseError::MalformedResponse
    );
}

#[test]
fn inflated_declared_length_is_malformed() {
    // The header declares 5 payload bytes but only 1 is present.
    assert_eq!(
        parse_server_response(&[0x05, 0x05, 0x00, 0x41]).unwrap_err(),
        ParseError::MalformedResponse
    );
}

#[test]
fn invalid_utf8_payload_is_rejected() {
    assert_eq!(
        parse_server_response(&[0x05, 0x01, 0x00, 0xFF]).unwrap_err(),
        ParseError::InvalidEncoding
    );
}

#[test]
fn empty_payload_parses_to_empty_text() {
    let actual = parse_server_response(&[0x05, 0x00, 0x00]).unwrap();
    assert_eq!(actual.data, "");
}

#[test]
fn ascii_payload_round_trips() {
    let actual = parse_server_response(&[0x05, 0x02, 0x00, 0x68, 0x69]).unwrap();
    assert_eq!(actual.data, "hi");
}

#[test]
fn multibyte_payload_decodes_to_text() {
    // 0xC3 0xA9 is the UTF-8 encoding of U+00E9: two payload bytes, one character.
    let actual = parse_server_response(&[0x05, 0x02, 0x00, 0xC3, 0xA9]).unwrap();
    assert_eq!(actual.data, "\u{e9}");
    assert_eq!(actual.data.chars().count(), 1);
}

#[test]
fn bytes_beyond_declared_length_are_ignored() {
    let actual = parse_server_response(&[0x05, 0x01, 0x00, 0x41, 0x42]).unwrap();
    assert_eq!(actual.data, "A");
}
