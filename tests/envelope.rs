use soapbox::envelope::{
    decode_body, envelope, is_parse_safe, layout_envelope, message_value, truncate, CAPACITY,
};
use soapbox::hub::{envelope_of_read, fresh_buffer};
use soapbox::net::{IpAddress, NetError, Received};

#[test]
fn envelope_plain_text_is_quoted() {
    let r = envelope("127.0.0.1", b"Hello localhost!");
    assert_eq!(r, "{\"src\":\"127.0.0.1\",\"msg\":\"Hello localhost!\"}");
}

#[test]
fn envelope_json_body_is_nested() {
    let r = envelope("127.0.0.1", b"{\"dit\":\"dat\"}");
    assert_eq!(r, "{\"src\":\"127.0.0.1\",\"msg\":{\"dit\":\"dat\"}}");
}

#[test]
fn envelope_invalid_utf8_falls_back() {
    let r = envelope("127.0.0.1", &[0x48, 0xff, 0xfe, 0x49]);
    assert_eq!(r, "{\"src\":\"127.0.0.1\",\"msg\":{}}");
}

#[test]
fn envelope_escapes_quotes_in_text() {
    let r = envelope("10.0.0.7", b"say \"hi\"\n");
    assert_eq!(r, "{\"src\":\"10.0.0.7\",\"msg\":\"say \\\"hi\\\"\\n\"}");
}

#[test]
fn envelope_empty_payload() {
    let r = envelope("127.0.0.1", b"");
    assert_eq!(r, "{\"src\":\"127.0.0.1\",\"msg\":\"\"}");
}

#[test]
fn envelope_ipv6_source() {
    let r = envelope("::1", b"42");
    assert_eq!(r, "{\"src\":\"::1\",\"msg\":42}");
}

#[test]
fn envelope_truncates_long_payload() {
    let payload = vec![b'a'; CAPACITY + 1];
    let r = envelope("127.0.0.1", &payload);
    let expected = format!("{{\"src\":\"127.0.0.1\",\"msg\":\"{}\"}}", "a".repeat(CAPACITY));
    assert_eq!(r, expected);
}

#[test]
fn truncate_keeps_capacity_bytes() {
    let mut payload = vec![b'x'; CAPACITY];
    payload.push(b'y');
    let kept = truncate(&payload);
    assert_eq!(kept.len(), 2048);
    assert!(kept.iter().all(|b| *b == b'x'));
    assert_eq!(truncate(b"short"), b"short".to_vec());
}

#[test]
fn decode_body_cut_inside_a_character_falls_back() {
    let mut payload = vec![b'a'; CAPACITY - 1];
    payload.extend_from_slice("é".as_bytes());
    assert_eq!(payload.len(), CAPACITY + 1);
    assert_eq!(decode_body(&payload), "{}");
}

#[test]
fn decode_body_multibyte_text() {
    assert_eq!(decode_body("grüß".as_bytes()), "grüß");
}

#[test]
fn layout_envelope_places_both_values() {
    assert_eq!(layout_envelope("\"h\"", "[1]"), "{\"src\":\"h\",\"msg\":[1]}");
    assert_eq!(layout_envelope("\"h\"", "\"[1\""), "{\"src\":\"h\",\"msg\":\"[1\"}");
}

#[test]
fn message_value_nests_json_and_quotes_text() {
    assert_eq!(message_value("[1, 2]"), "[1, 2]");
    assert_eq!(message_value("[1, 2"), "\"[1, 2\"");
    assert_eq!(message_value("{}"), "{}");
}

#[test]
fn message_value_long_exponent_is_quoted_without_panic() {
    let body = format!("1e{}", "9".repeat(20));
    assert_eq!(message_value(&body), format!("\"{}\"", body));
    let body = format!("1e{}", "9".repeat(3));
    assert_eq!(message_value(&body), body);
}

#[test]
fn message_value_deep_nesting_is_quoted() {
    let body = format!("{}{}", "[".repeat(300), "]".repeat(300));
    assert_eq!(message_value(&body), format!("\"{}\"", body));
    let body = format!("{}{}", "[".repeat(256), "]".repeat(256));
    assert_eq!(message_value(&body), body);
}

#[test]
fn parse_safety_bounds() {
    assert!(is_parse_safe(b"1234567890123456789"));
    assert!(!is_parse_safe(b"12345678901234567890"));
    assert!(is_parse_safe(b"12345678901234567,12345678901234567"));
    assert!(!is_parse_safe(&vec![b' '; CAPACITY + 1]));
    assert!(is_parse_safe(b""));
}

#[test]
fn read_outcome_datagram_uses_amount_and_sender() {
    let mut buffer = fresh_buffer();
    assert_eq!(buffer.len(), CAPACITY);
    assert!(buffer.iter().all(|b| *b == 0));
    buffer[..5].copy_from_slice(b"hello");
    let read = Ok(Received::Datagram { amount: 5, source: IpAddress::V4([192, 168, 1, 4]) });
    let r = envelope_of_read(read, &buffer).unwrap();
    assert_eq!(r, Some("{\"src\":\"192.168.1.4\",\"msg\":\"hello\"}".to_string()));
}

#[test]
fn read_outcome_empty_and_error() {
    let buffer = fresh_buffer();
    assert_eq!(envelope_of_read(Ok(Received::Empty), &buffer).unwrap(), None);
    let err = NetError { reason: "closed".to_string() };
    match envelope_of_read(Err(err), &buffer) {
        Err(e) => assert_eq!(e.reason, "closed"),
        Ok(_) => panic!("an error must come back as an error"),
    }
}

#[test]
fn read_outcome_invalid_utf8_and_json() {
    let mut buffer = fresh_buffer();
    buffer[..2].copy_from_slice(&[0xc3, 0x28]);
    let read = Ok(Received::Datagram { amount: 2, source: IpAddress::V4([10, 1, 1, 1]) });
    assert_eq!(envelope_of_read(read, &buffer).unwrap().unwrap(), "{\"src\":\"10.1.1.1\",\"msg\":{}}");
    buffer[..13].copy_from_slice(b"{\"dit\":\"dat\"}");
    let read = Ok(Received::Datagram { amount: 13, source: IpAddress::V4([127, 0, 0, 1]) });
    assert_eq!(
        envelope_of_read(read, &buffer).unwrap().unwrap(),
        "{\"src\":\"127.0.0.1\",\"msg\":{\"dit\":\"dat\"}}"
    );
}

#[test]
fn read_outcome_ipv6_sender() {
    let mut buffer = fresh_buffer();
    buffer[..2].copy_from_slice(b"hi");
    let read = Ok(Received::Datagram { amount: 2, source: IpAddress::V6([0, 0, 0, 0, 0, 0, 0, 1]) });
    assert_eq!(envelope_of_read(read, &buffer).unwrap().unwrap(), "{\"src\":\"::1\",\"msg\":\"hi\"}");
}
