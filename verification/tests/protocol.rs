use titanhost::error::AppError;
use titanhost::pinger::{
    build_handshake, check_status_packet_id, frame_packet, parse_status_response,
    status_request_packet, write_string_to_buf, StatusRead,
};
use titanhost::varint::{decode_varint, write_varint_to_buf, VarIntDecode, VarIntReader, VarIntStep};

fn encode(v: i32) -> Vec<u8> {
    let mut buf = Vec::new();
    write_varint_to_buf(&mut buf, v);
    buf
}

#[test]
fn varint_known_encodings() {
    assert_eq!(encode(0), vec![0x00]);
    assert_eq!(encode(1), vec![0x01]);
    assert_eq!(encode(127), vec![0x7f]);
    assert_eq!(encode(128), vec![0x80, 0x01]);
    assert_eq!(encode(300), vec![0xac, 0x02]);
    assert_eq!(encode(340), vec![0xd4, 0x02]);
    assert_eq!(encode(2147483647), vec![0xff, 0xff, 0xff, 0xff, 0x07]);
    assert_eq!(encode(-1), vec![0xff, 0xff, 0xff, 0xff, 0x0f]);
    assert_eq!(encode(i32::MIN), vec![0x80, 0x80, 0x80, 0x80, 0x08]);
}

#[test]
fn varint_appends_to_buffer() {
    let mut buf = vec![9u8, 8];
    write_varint_to_buf(&mut buf, 300);
    assert_eq!(buf, vec![9, 8, 0xac, 0x02]);
}

#[test]
fn varint_roundtrip_on_values() {
    for v in [0, 1, 127, 128, 255, 300, 25565, 2097151, 2097152, i32::MAX, -1, -300, i32::MIN] {
        let mut bytes = encode(v);
        let n = bytes.len();
        bytes.extend_from_slice(&[0xaa, 0xbb]);
        assert_eq!(decode_varint(&bytes), VarIntDecode::Value { value: v, len: n });
    }
}

#[test]
fn varint_incomplete_and_too_big() {
    assert_eq!(decode_varint(&[]), VarIntDecode::Incomplete);
    assert_eq!(decode_varint(&[0x80, 0x80]), VarIntDecode::Incomplete);
    assert_eq!(decode_varint(&[0xff, 0xff, 0xff, 0xff, 0xff, 0x01]), VarIntDecode::TooBig);
}

#[test]
fn varint_reader_matches_buffer_decoding() {
    let mut r = VarIntReader::new();
    assert_eq!(r.feed(0xd4), VarIntStep::NeedMore);
    assert_eq!(r.feed(0x02), VarIntStep::Done(340));

    let mut r = VarIntReader::new();
    for _ in 0..5 {
        assert_eq!(r.feed(0xff), VarIntStep::NeedMore);
    }
    assert_eq!(r.feed(0x01), VarIntStep::TooBig);

    let mut r = VarIntReader::new();
    let bytes = encode(-1);
    let mut last = VarIntStep::NeedMore;
    for b in bytes {
        last = r.feed(b);
    }
    assert_eq!(last, VarIntStep::Done(-1));
}

#[test]
fn string_is_length_prefixed() {
    let mut buf = Vec::new();
    write_string_to_buf(&mut buf, "localhost");
    let mut expected = vec![9u8];
    expected.extend_from_slice(b"localhost");
    assert_eq!(buf, expected);

    let mut buf = Vec::new();
    write_string_to_buf(&mut buf, "é");
    assert_eq!(buf, vec![2, 0xc3, 0xa9]);
}

#[test]
fn handshake_bytes() {
    let h = build_handshake("localhost", 25565);
    let mut expected = vec![0x00, 0xd4, 0x02, 9];
    expected.extend_from_slice(b"localhost");
    expected.extend_from_slice(&[0x63, 0xdd, 0x01]);
    assert_eq!(h, expected);
}

#[test]
fn framing_and_status_request() {
    assert_eq!(frame_packet(&[1, 2, 3]), vec![3, 1, 2, 3]);
    assert_eq!(frame_packet(&[]), vec![0]);
    assert_eq!(status_request_packet(), vec![1, 0]);
}

fn response(json: &[u8]) -> Vec<u8> {
    let mut body = vec![0u8];
    write_varint_to_buf(&mut body, json.len() as i32);
    body.extend_from_slice(json);
    frame_packet(&body)
}

#[test]
fn status_response_is_read() {
    let bytes = response(b"{\"a\":1}");
    match parse_status_response(&bytes) {
        StatusRead::Json(s) => assert_eq!(s, "{\"a\":1}"),
        other => panic!("unexpected {:?}", other),
    }
    assert!(matches!(parse_status_response(&bytes[..bytes.len() - 1]), StatusRead::NeedMore));
    assert!(matches!(parse_status_response(&[]), StatusRead::NeedMore));
}

#[test]
fn status_response_errors() {
    let bad_id = frame_packet(&[0x01, 0x00]);
    match parse_status_response(&bad_id) {
        StatusRead::Failed(AppError::Process(m)) => assert_eq!(m, "Неверный ID ответа сервера"),
        other => panic!("unexpected {:?}", other),
    }
    match parse_status_response(&[0xff, 0xff, 0xff, 0xff, 0xff, 0x01]) {
        StatusRead::Failed(AppError::Process(m)) => assert_eq!(m, "VarInt too big"),
        other => panic!("unexpected {:?}", other),
    }
    let mut negative = vec![0x00u8];
    write_varint_to_buf(&mut negative, -1);
    match parse_status_response(&frame_packet(&negative)) {
        StatusRead::Failed(AppError::Process(m)) => {
            assert_eq!(m, "Отрицательная длина ответа сервера")
        }
        other => panic!("unexpected {:?}", other),
    }
    match parse_status_response(&response(&[0xff, 0xfe])) {
        StatusRead::Failed(AppError::Process(m)) => assert!(m.starts_with("UTF-8 decoding error: ")),
        other => panic!("unexpected {:?}", other),
    }
}

#[test]
fn packet_id_check() {
    assert!(check_status_packet_id(0).is_ok());
    match check_status_packet_id(5) {
        Err(AppError::Process(m)) => assert_eq!(m, "Неверный ID ответа сервера"),
        other => panic!("unexpected {:?}", other),
    }
}

#[test]
fn error_messages() {
    assert_eq!(AppError::Network("x".to_string()).message(), "Network error: x");
    assert_eq!(AppError::Io("x".to_string()).message(), "I/O error: x");
}
