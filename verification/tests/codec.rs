use serial_relay::console;
use serial_relay::device;
use serial_relay::RelayError;

#[test]
fn device_decode_yields_hello() {
    let mut buf = b"hello\r\n".to_vec();
    let r = device::decode_frame(&mut buf);
    assert_eq!(r, Ok(Some(String::from("hello"))));
    assert!(buf.is_empty());
}

#[test]
fn console_encode_hello() {
    let mut out: Vec<u8> = Vec::new();
    console::encode_frame("hello", &mut out);
    assert_eq!(out, b"hello\n".to_vec());
}

#[test]
fn device_encode_appends_crlf() {
    let mut out: Vec<u8> = Vec::new();
    device::encode_frame("hi", &mut out);
    device::encode_frame("there", &mut out);
    assert_eq!(out, b"hi\r\nthere\r\n".to_vec());
}

#[test]
fn device_round_trip() {
    let mut buf: Vec<u8> = Vec::new();
    device::encode_frame("greetings", &mut buf);
    let r = device::decode_frame(&mut buf);
    assert_eq!(r, Ok(Some(String::from("greetings"))));
    assert!(buf.is_empty());
}

#[test]
fn console_round_trip() {
    let mut buf: Vec<u8> = Vec::new();
    console::encode_frame("greetings", &mut buf);
    let r = console::decode_frame(&mut buf);
    assert_eq!(r, Ok(Some(String::from("greetings"))));
    assert!(buf.is_empty());
}

#[test]
fn device_partial_frame_persists() {
    let mut buf = b"hel".to_vec();
    assert_eq!(device::decode_frame(&mut buf), Ok(None));
    assert_eq!(buf, b"hel".to_vec());
    assert_eq!(device::decode_frame(&mut buf), Ok(None));
    assert_eq!(buf, b"hel".to_vec());
    buf.extend_from_slice(b"lo\r\n");
    assert_eq!(device::decode_frame(&mut buf), Ok(Some(String::from("hello"))));
    assert!(buf.is_empty());
}

#[test]
fn device_invalid_utf8_is_decode_error() {
    let mut buf = vec![0x80, b'\r', b'\n'];
    assert_eq!(device::decode_frame(&mut buf), Err(RelayError::Decode));
    assert!(buf.is_empty());
}

#[test]
fn console_invalid_utf8_is_decode_error() {
    let mut buf = vec![0xC3, b'\n'];
    assert_eq!(console::decode_frame(&mut buf), Err(RelayError::Decode));
}

#[test]
fn device_one_byte_frame_is_decode_error() {
    let mut buf = b"\nrest".to_vec();
    assert_eq!(device::decode_frame(&mut buf), Err(RelayError::Decode));
    assert_eq!(buf, b"rest".to_vec());
}

#[test]
fn device_empty_line() {
    let mut buf = b"\r\n".to_vec();
    assert_eq!(device::decode_frame(&mut buf), Ok(Some(String::new())));
    assert!(buf.is_empty());
}

#[test]
fn console_empty_line() {
    let mut buf = b"\n".to_vec();
    assert_eq!(console::decode_frame(&mut buf), Ok(Some(String::new())));
    assert!(buf.is_empty());
}

#[test]
fn device_strips_by_position_not_value() {
    let mut buf = b"ab!\n".to_vec();
    assert_eq!(device::decode_frame(&mut buf), Ok(Some(String::from("ab"))));
    assert!(buf.is_empty());
}

#[test]
fn console_strips_nothing_before_line_feed() {
    let mut buf = b"hi\r\n".to_vec();
    assert_eq!(console::decode_frame(&mut buf), Ok(Some(String::from("hi\r"))));
    assert!(buf.is_empty());
}

#[test]
fn console_unterminated_run_past_bound_is_frame_too_long() {
    let mut buf = vec![b'a'; console::MAX_FRAME_LEN + 1];
    assert_eq!(console::decode_frame(&mut buf), Err(RelayError::FrameTooLong));
    assert_eq!(buf.len(), console::MAX_FRAME_LEN + 1);
}

#[test]
fn device_has_no_length_bound() {
    let mut buf = vec![b'a'; console::MAX_FRAME_LEN + 1];
    assert_eq!(device::decode_frame(&mut buf), Ok(None));
    assert_eq!(buf.len(), console::MAX_FRAME_LEN + 1);
}

#[test]
fn non_ascii_text_crosses_whole_bytes() {
    let mut buf = vec![0xC3, 0xA9, b'\r', b'\n'];
    let r = device::decode_frame(&mut buf);
    assert_eq!(r, Ok(Some(String::from("\u{e9}"))));
    let mut out: Vec<u8> = Vec::new();
    console::encode_frame("\u{e9}", &mut out);
    assert_eq!(out, vec![0xC3, 0xA9, b'\n']);
}

#[test]
fn device_decodes_one_frame_per_call() {
    let mut buf = b"a\r\nb\r\n".to_vec();
    assert_eq!(device::decode_frame(&mut buf), Ok(Some(String::from("a"))));
    assert_eq!(buf, b"b\r\n".to_vec());
    assert_eq!(device::decode_frame(&mut buf), Ok(Some(String::from("b"))));
    assert!(buf.is_empty());
}
