//! Exact bytes of encoded messages, checked against an independent layout of the D-Bus wire format.
use lib::encoder::{begin_array, end_array, put_str, put_u16, put_u32, MessageEncoder, MessageType};
use lib::error::EncodeError;
use lib::messages::org_freedesktop_dbus::{AddMatch, GetProperty, Hello, RemoveMatch, RequestName};
use lib::messages::sni_host::{Event, EventArgs, GetLayout};
use lib::messages::{EmptyMethodReturn, ErrorNoMethod};

#[test]
fn test_hello_exact_bytes() {
    let mut buf = [0u8; 512];
    let out = Hello::encode(&mut buf).unwrap();
    let expected: &[u8] = &[108, 1, 0, 1, 0, 0, 0, 0, 0, 0, 0, 0, 109, 0, 0, 0, 1, 1, 111, 0, 21, 0, 0, 0, 47, 111, 114, 103, 47, 102, 114, 101, 101, 100, 101, 115, 107, 116, 111, 112, 47, 68, 66, 117, 115, 0, 0, 0, 2, 1, 115, 0, 20, 0, 0, 0, 111, 114, 103, 46, 102, 114, 101, 101, 100, 101, 115, 107, 116, 111, 112, 46, 68, 66, 117, 115, 0, 0, 0, 0, 3, 1, 115, 0, 5, 0, 0, 0, 72, 101, 108, 108, 111, 0, 0, 0, 6, 1, 115, 0, 20, 0, 0, 0, 111, 114, 103, 46, 102, 114, 101, 101, 100, 101, 115, 107, 116, 111, 112, 46, 68, 66, 117, 115, 0, 0, 0, 0];
    assert_eq!(out, expected);
}

#[test]
fn test_add_match_exact_bytes() {
    let mut buf = [0u8; 512];
    let out = AddMatch::encode("type='signal',sender='SENDER',path='PATH',member='MEMBER'", &mut buf).unwrap();
    let expected: &[u8] = &[108, 1, 0, 1, 62, 0, 0, 0, 0, 0, 0, 0, 127, 0, 0, 0, 1, 1, 111, 0, 21, 0, 0, 0, 47, 111, 114, 103, 47, 102, 114, 101, 101, 100, 101, 115, 107, 116, 111, 112, 47, 68, 66, 117, 115, 0, 0, 0, 2, 1, 115, 0, 20, 0, 0, 0, 111, 114, 103, 46, 102, 114, 101, 101, 100, 101, 115, 107, 116, 111, 112, 46, 68, 66, 117, 115, 0, 0, 0, 0, 3, 1, 115, 0, 8, 0, 0, 0, 65, 100, 100, 77, 97, 116, 99, 104, 0, 0, 0, 0, 0, 0, 0, 0, 6, 1, 115, 0, 20, 0, 0, 0, 111, 114, 103, 46, 102, 114, 101, 101, 100, 101, 115, 107, 116, 111, 112, 46, 68, 66, 117, 115, 0, 0, 0, 0, 8, 1, 103, 0, 1, 115, 0, 0, 57, 0, 0, 0, 116, 121, 112, 101, 61, 39, 115, 105, 103, 110, 97, 108, 39, 44, 115, 101, 110, 100, 101, 114, 61, 39, 83, 69, 78, 68, 69, 82, 39, 44, 112, 97, 116, 104, 61, 39, 80, 65, 84, 72, 39, 44, 109, 101, 109, 98, 101, 114, 61, 39, 77, 69, 77, 66, 69, 82, 39, 0];
    assert_eq!(out, expected);
}

#[test]
fn test_remove_match_exact_bytes() {
    let mut buf = [0u8; 512];
    let out = RemoveMatch::encode(&mut buf, "type='signal',path='P'").unwrap();
    let expected: &[u8] = &[108, 1, 0, 1, 27, 0, 0, 0, 0, 0, 0, 0, 127, 0, 0, 0, 1, 1, 111, 0, 21, 0, 0, 0, 47, 111, 114, 103, 47, 102, 114, 101, 101, 100, 101, 115, 107, 116, 111, 112, 47, 68, 66, 117, 115, 0, 0, 0, 2, 1, 115, 0, 20, 0, 0, 0, 111, 114, 103, 46, 102, 114, 101, 101, 100, 101, 115, 107, 116, 111, 112, 46, 68, 66, 117, 115, 0, 0, 0, 0, 3, 1, 115, 0, 11, 0, 0, 0, 82, 101, 109, 111, 118, 101, 77, 97, 116, 99, 104, 0, 0, 0, 0, 0, 6, 1, 115, 0, 20, 0, 0, 0, 111, 114, 103, 46, 102, 114, 101, 101, 100, 101, 115, 107, 116, 111, 112, 46, 68, 66, 117, 115, 0, 0, 0, 0, 8, 1, 103, 0, 1, 115, 0, 0, 22, 0, 0, 0, 116, 121, 112, 101, 61, 39, 115, 105, 103, 110, 97, 108, 39, 44, 112, 97, 116, 104, 61, 39, 80, 39, 0];
    assert_eq!(out, expected);
}

#[test]
fn test_empty_method_return_exact_bytes() {
    let mut buf = [0u8; 512];
    let out = EmptyMethodReturn::encode((":1.5", 7), &mut buf).unwrap();
    let expected: &[u8] = &[108, 2, 0, 1, 0, 0, 0, 0, 0, 0, 0, 0, 21, 0, 0, 0, 5, 1, 117, 0, 7, 0, 0, 0, 6, 1, 115, 0, 4, 0, 0, 0, 58, 49, 46, 53, 0, 0, 0, 0];
    assert_eq!(out, expected);
}

#[test]
fn test_error_no_method_exact_bytes() {
    let mut buf = [0u8; 512];
    let out = ErrorNoMethod::encode((":1.2", 9), &mut buf).unwrap();
    let expected: &[u8] = &[108, 3, 0, 1, 19, 0, 0, 0, 0, 0, 0, 0, 87, 0, 0, 0, 4, 1, 115, 0, 40, 0, 0, 0, 111, 114, 103, 46, 102, 114, 101, 101, 100, 101, 115, 107, 116, 111, 112, 46, 68, 66, 117, 115, 46, 69, 114, 114, 111, 114, 46, 85, 110, 107, 110, 111, 119, 110, 77, 101, 116, 104, 111, 100, 0, 0, 0, 0, 0, 0, 0, 0, 5, 1, 117, 0, 9, 0, 0, 0, 6, 1, 115, 0, 4, 0, 0, 0, 58, 49, 46, 50, 0, 0, 0, 0, 8, 1, 103, 0, 1, 115, 0, 0, 14, 0, 0, 0, 85, 110, 107, 110, 111, 119, 110, 32, 109, 101, 116, 104, 111, 100, 0];
    assert_eq!(out, expected);
}

#[test]
fn test_request_name_exact_bytes() {
    let mut buf = [0u8; 512];
    let out = RequestName::encode("org.example.App", &mut buf).unwrap();
    let expected: &[u8] = &[108, 1, 0, 1, 24, 0, 0, 0, 0, 0, 0, 0, 128, 0, 0, 0, 1, 1, 111, 0, 21, 0, 0, 0, 47, 111, 114, 103, 47, 102, 114, 101, 101, 100, 101, 115, 107, 116, 111, 112, 47, 68, 66, 117, 115, 0, 0, 0, 2, 1, 115, 0, 20, 0, 0, 0, 111, 114, 103, 46, 102, 114, 101, 101, 100, 101, 115, 107, 116, 111, 112, 46, 68, 66, 117, 115, 0, 0, 0, 0, 3, 1, 115, 0, 11, 0, 0, 0, 82, 101, 113, 117, 101, 115, 116, 78, 97, 109, 101, 0, 0, 0, 0, 0, 6, 1, 115, 0, 20, 0, 0, 0, 111, 114, 103, 46, 102, 114, 101, 101, 100, 101, 115, 107, 116, 111, 112, 46, 68, 66, 117, 115, 0, 0, 0, 0, 8, 1, 103, 0, 2, 115, 117, 0, 15, 0, 0, 0, 111, 114, 103, 46, 101, 120, 97, 109, 112, 108, 101, 46, 65, 112, 112, 0, 7, 0, 0, 0];
    assert_eq!(out, expected);
}

#[test]
fn test_get_property_exact_bytes_len() {
    let mut buf = [0u8; 512];
    let n = GetProperty::encode(&mut buf, "org.example.Svc", "/obj", "org.example.Iface", "Prop").unwrap();
    let expected: &[u8] = &[108, 1, 0, 1, 33, 0, 0, 0, 0, 0, 0, 0, 104, 0, 0, 0, 1, 1, 111, 0, 4, 0, 0, 0, 47, 111, 98, 106, 0, 0, 0, 0, 2, 1, 115, 0, 31, 0, 0, 0, 111, 114, 103, 46, 102, 114, 101, 101, 100, 101, 115, 107, 116, 111, 112, 46, 68, 66, 117, 115, 46, 80, 114, 111, 112, 101, 114, 116, 105, 101, 115, 0, 3, 1, 115, 0, 3, 0, 0, 0, 71, 101, 116, 0, 0, 0, 0, 0, 6, 1, 115, 0, 15, 0, 0, 0, 111, 114, 103, 46, 101, 120, 97, 109, 112, 108, 101, 46, 83, 118, 99, 0, 8, 1, 103, 0, 2, 115, 115, 0, 17, 0, 0, 0, 111, 114, 103, 46, 101, 120, 97, 109, 112, 108, 101, 46, 73, 102, 97, 99, 101, 0, 0, 0, 4, 0, 0, 0, 80, 114, 111, 112, 0];
    assert_eq!(n, expected.len());
    assert_eq!(&buf[..n], expected);
}

#[test]
fn test_host_get_layout_exact_bytes() {
    let mut buf = [0u8; 512];
    let out = GetLayout::encode((":1.9", "/MenuBar"), &mut buf).unwrap();
    let expected: &[u8] = &[108, 1, 0, 1, 117, 0, 0, 0, 0, 0, 0, 0, 106, 0, 0, 0, 1, 1, 111, 0, 8, 0, 0, 0, 47, 77, 101, 110, 117, 66, 97, 114, 0, 0, 0, 0, 0, 0, 0, 0, 2, 1, 115, 0, 22, 0, 0, 0, 99, 111, 109, 46, 99, 97, 110, 111, 110, 105, 99, 97, 108, 46, 100, 98, 117, 115, 109, 101, 110, 117, 0, 0, 3, 1, 115, 0, 9, 0, 0, 0, 71, 101, 116, 76, 97, 121, 111, 117, 116, 0, 0, 0, 0, 0, 0, 0, 6, 1, 115, 0, 4, 0, 0, 0, 58, 49, 46, 57, 0, 0, 0, 0, 8, 1, 103, 0, 4, 105, 105, 97, 115, 0, 0, 0, 0, 0, 0, 0, 0, 0, 0, 0, 255, 255, 255, 255, 105, 0, 0, 0, 4, 0, 0, 0, 116, 121, 112, 101, 0, 0, 0, 0, 5, 0, 0, 0, 108, 97, 98, 101, 108, 0, 0, 0, 7, 0, 0, 0, 101, 110, 97, 98, 108, 101, 100, 0, 7, 0, 0, 0, 118, 105, 115, 105, 98, 108, 101, 0, 11, 0, 0, 0, 116, 111, 103, 103, 108, 101, 45, 116, 121, 112, 101, 0, 12, 0, 0, 0, 116, 111, 103, 103, 108, 101, 45, 115, 116, 97, 116, 101, 0, 0, 0, 0, 16, 0, 0, 0, 99, 104, 105, 108, 100, 114, 101, 110, 45, 100, 105, 115, 112, 108, 97, 121, 0];
    assert_eq!(out, expected);
}

#[test]
fn test_event_exact_bytes() {
    let mut buf = [0u8; 512];
    let out = Event::encode(EventArgs { id: 5, timestamp: 1234, destination: ":1.9", path: "/MenuBar" }, &mut buf).unwrap();
    let expected: &[u8] = &[108, 1, 0, 1, 28, 0, 0, 0, 0, 0, 0, 0, 98, 0, 0, 0, 1, 1, 111, 0, 8, 0, 0, 0, 47, 77, 101, 110, 117, 66, 97, 114, 0, 0, 0, 0, 0, 0, 0, 0, 2, 1, 115, 0, 22, 0, 0, 0, 99, 111, 109, 46, 99, 97, 110, 111, 110, 105, 99, 97, 108, 46, 100, 98, 117, 115, 109, 101, 110, 117, 0, 0, 3, 1, 115, 0, 5, 0, 0, 0, 69, 118, 101, 110, 116, 0, 0, 0, 6, 1, 115, 0, 4, 0, 0, 0, 58, 49, 46, 57, 0, 0, 0, 0, 8, 1, 103, 0, 4, 105, 115, 118, 117, 0, 0, 0, 0, 0, 0, 0, 5, 0, 0, 0, 7, 0, 0, 0, 99, 108, 105, 99, 107, 101, 100, 0, 1, 105, 0, 0, 0, 0, 0, 0, 210, 4, 0, 0];
    assert_eq!(out, expected);
}

#[test]
fn test_hello_buffer_too_small() {
    let mut buf = [7u8; 100];
    let r = Hello::encode(&mut buf);
    assert_eq!(r, Err(EncodeError::BufferTooSmall));
    assert!(buf.iter().all(|b| *b == 7));
}

#[test]
fn test_hello_fits_exactly() {
    let mut buf = [0u8; 128];
    assert_eq!(Hello::encode(&mut buf).unwrap().len(), 128);
}

#[test]
fn test_readme_body_example() {
    let mut buf = [0u8; 256];
    let mut encoder = MessageEncoder::new(MessageType::MethodCall);
    encoder.path = Some("/org/example/Object");
    encoder.member = Some("Example");
    encoder.signature = Some("suaq");
    put_str(&mut encoder.body, "hello");
    put_u32(&mut encoder.body, 42);
    let mark = begin_array(&mut encoder.body, 2);
    for x in [1u16, 2, 3] {
        put_u16(&mut encoder.body, x);
    }
    end_array(&mut encoder.body, mark);
    let n = encoder.finish(&mut buf).unwrap();
    let expected: &[u8] = &[108, 1, 0, 1, 26, 0, 0, 0, 0, 0, 0, 0, 58, 0, 0, 0, 1, 1, 111, 0, 19, 0, 0, 0, 47, 111, 114, 103, 47, 101, 120, 97, 109, 112, 108, 101, 47, 79, 98, 106, 101, 99, 116, 0, 0, 0, 0, 0, 3, 1, 115, 0, 7, 0, 0, 0, 69, 120, 97, 109, 112, 108, 101, 0, 8, 1, 103, 0, 4, 115, 117, 97, 113, 0, 0, 0, 0, 0, 0, 0, 5, 0, 0, 0, 104, 101, 108, 108, 111, 0, 0, 0, 42, 0, 0, 0, 6, 0, 0, 0, 1, 0, 2, 0, 3, 0];
    assert_eq!(&buf[..n], expected);
}

#[test]
fn test_message_frame_announces_body() {
    let mut buf = [0u8; 512];
    let out = RequestName::encode("org.example.App", &mut buf).unwrap();
    assert_eq!(&out[..4], &[b'l', 1, 0, 1]);
    let body_len = u32::from_le_bytes([out[4], out[5], out[6], out[7]]) as usize;
    // a string of 15 bytes (length, bytes, NUL) and the flags
    assert_eq!(body_len, 4 + 15 + 1 + 4);
    assert_eq!((out.len() - body_len) % 8, 0);
    assert_eq!(&out[out.len() - 4..], &[7, 0, 0, 0]);
}
