//! Standard calls to the StatusNotifierWatcher of a host.
use lib::encoder::MessageType;
use lib::error::DBusError;
use lib::incoming::{IncomingBody, IncomingMessage, IncomingValue};
use lib::introspectable::{IntrospectibleObjectAt, IntrospectibleObjectAtRequest};
use lib::messages::sni_host::StatusNotifierWatcherIntrospection;
use lib::messages::ErrorNoMethod;

fn call<'a>(
    serial: u32,
    path: &'a str,
    interface: &'a str,
    member: &'a str,
    body: Option<IncomingBody<'a>>,
) -> IncomingMessage<'a> {
    IncomingMessage {
        message_type: MessageType::MethodCall,
        serial,
        path: Some(path),
        interface: Some(interface),
        member: Some(member),
        destination: Some("org.kde.StatusNotifierWatcher"),
        sender: Some(":1.3"),
        body,
    }
}

#[test]
fn test_watcher_protocol_version() {
    let args = [
        IncomingValue::String("org.kde.StatusNotifierWatcher"),
        IncomingValue::String("ProtocolVersion"),
    ];
    let m = call(
        11,
        "/StatusNotifierWatcher",
        "org.freedesktop.DBus.Properties",
        "Get",
        Some(IncomingBody { values: &args }),
    );
    let mut buf = [0u8; 512];
    let out = StatusNotifierWatcherIntrospection::new().handle(&mut buf, m).unwrap().unwrap();
    let expected: &[u8] = &[108, 2, 0, 1, 8, 0, 0, 0, 0, 0, 0, 0, 31, 0, 0, 0, 5, 1, 117, 0, 11, 0, 0, 0, 6, 1, 115, 0, 4, 0, 0, 0, 58, 49, 46, 51, 0, 0, 0, 0, 8, 1, 103, 0, 1, 118, 0, 0, 1, 105, 0, 0, 42, 0, 0, 0];
    assert_eq!(out, expected);
}

#[test]
fn test_watcher_get_all() {
    let args = [IncomingValue::String("org.kde.StatusNotifierWatcher")];
    let m = call(
        12,
        "/StatusNotifierWatcher",
        "org.freedesktop.DBus.Properties",
        "GetAll",
        Some(IncomingBody { values: &args }),
    );
    let mut buf = [0u8; 512];
    let out = StatusNotifierWatcherIntrospection::new().handle(&mut buf, m).unwrap().unwrap();
    let expected: &[u8] = &[108, 2, 0, 1, 132, 0, 0, 0, 0, 0, 0, 0, 35, 0, 0, 0, 5, 1, 117, 0, 12, 0, 0, 0, 6, 1, 115, 0, 4, 0, 0, 0, 58, 49, 46, 51, 0, 0, 0, 0, 8, 1, 103, 0, 5, 97, 123, 115, 118, 125, 0, 0, 0, 0, 0, 0, 124, 0, 0, 0, 0, 0, 0, 0, 15, 0, 0, 0, 80, 114, 111, 116, 111, 99, 111, 108, 86, 101, 114, 115, 105, 111, 110, 0, 1, 105, 0, 0, 42, 0, 0, 0, 0, 0, 0, 0, 30, 0, 0, 0, 73, 115, 83, 116, 97, 116, 117, 115, 78, 111, 116, 105, 102, 105, 101, 114, 72, 111, 115, 116, 82, 101, 103, 105, 115, 116, 101, 114, 101, 100, 0, 1, 98, 0, 0, 0, 1, 0, 0, 0, 0, 0, 0, 0, 29, 0, 0, 0, 82, 101, 103, 105, 115, 116, 101, 114, 101, 100, 83, 116, 97, 116, 117, 115, 78, 111, 116, 105, 102, 105, 101, 114, 73, 116, 101, 109, 115, 0, 2, 97, 115, 0, 0, 0, 0, 0, 0, 0];
    assert_eq!(out, expected);
}

#[test]
fn test_watcher_unknown_property_is_no_method() {
    let args = [
        IncomingValue::String("org.kde.StatusNotifierWatcher"),
        IncomingValue::String("Nope"),
    ];
    let m = call(
        13,
        "/StatusNotifierWatcher",
        "org.freedesktop.DBus.Properties",
        "Get",
        Some(IncomingBody { values: &args }),
    );
    let mut buf = [0u8; 512];
    let mut err = [0u8; 512];
    let out = StatusNotifierWatcherIntrospection::new().handle(&mut buf, m).unwrap().unwrap();
    let expected = ErrorNoMethod::encode((":1.3", 13), &mut err).unwrap();
    assert_eq!(out, expected);
}

#[test]
fn test_watcher_ping_is_no_method() {
    let m = call(14, "/", "org.freedesktop.DBus.Peer", "Ping", None);
    let mut buf = [0u8; 512];
    let mut err = [0u8; 512];
    let out = StatusNotifierWatcherIntrospection::new().handle(&mut buf, m).unwrap().unwrap();
    let expected = ErrorNoMethod::encode((":1.3", 14), &mut err).unwrap();
    assert_eq!(out, expected);
}

#[test]
fn test_watcher_ignores_other_interfaces() {
    let m = call(15, "/StatusNotifierWatcher", "org.kde.StatusNotifierWatcher", "RegisterStatusNotifierHost", None);
    let mut buf = [5u8; 64];
    assert_eq!(StatusNotifierWatcherIntrospection::new().handle(&mut buf, m), Ok(None));
    assert!(buf.iter().all(|b| *b == 5));
}

#[test]
fn test_watcher_introspection_data_is_padded() {
    let m = call(16, "/StatusNotifierWatcher", "org.freedesktop.DBus.Introspectable", "Introspect", None);
    let mut buf = vec![0u8; 12 * 1024];
    let out = StatusNotifierWatcherIntrospection::default().handle(&mut buf, m).unwrap().unwrap();
    // the body is one string of 10 KiB: its length field, the bytes and a NUL
    let body_len = u32::from_le_bytes([out[4], out[5], out[6], out[7]]) as usize;
    assert_eq!(body_len, 4 + 10240 + 1);
    let body = &out[out.len() - body_len..];
    assert_eq!(u32::from_le_bytes([body[0], body[1], body[2], body[3]]), 10240);
    let xml = &body[4..4 + 10240];
    assert!(xml.starts_with(b"\n<!DOCTYPE node"));
    let text = core::str::from_utf8(xml).unwrap();
    assert!(text.contains("<interface name=\"org.kde.StatusNotifierWatcher\">"));
    assert_eq!(xml[10239], 0);
}

#[test]
fn test_watcher_root_introspection_nests_watcher() {
    let m = call(17, "/", "org.freedesktop.DBus.Introspectable", "Introspect", None);
    let mut buf = vec![0u8; 12 * 1024];
    let out = StatusNotifierWatcherIntrospection::new().handle(&mut buf, m).unwrap().unwrap();
    let text = core::str::from_utf8(out).unwrap();
    assert!(text.contains("<node name=\"StatusNotifierWatcher\">"));
}

#[test]
fn test_watcher_reply_buffer_too_small() {
    let m = call(18, "/", "org.freedesktop.DBus.Introspectable", "Introspect", None);
    let mut buf = [0u8; 256];
    assert_eq!(
        StatusNotifierWatcherIntrospection::new().handle(&mut buf, m),
        Err(lib::error::EncodeError::BufferTooSmall)
    );
}

#[test]
fn test_introspectable_requests() {
    let obj = IntrospectibleObjectAt::new("org.example.Svc");
    let mut m = call(3, "/a", "org.freedesktop.DBus.Introspectable", "Introspect", None);
    m.destination = Some("org.example.Svc");
    assert_eq!(obj.handle(m), Some((3, ":1.3", IntrospectibleObjectAtRequest::Introspect { path: "/a" })));

    let args = [IncomingValue::String("org.example.I")];
    let mut m = call(4, "/a", "org.freedesktop.DBus.Properties", "GetAll", Some(IncomingBody { values: &args }));
    m.destination = Some(":1.99");
    assert_eq!(
        obj.handle(m),
        Some((4, ":1.3", IntrospectibleObjectAtRequest::GetAllProperties { path: "/a", interface: "org.example.I" }))
    );

    let mut m = call(5, "/a", "org.freedesktop.DBus.Properties", "Get", None);
    m.destination = Some("org.example.Svc");
    assert_eq!(obj.handle(m), Some((5, ":1.3", IntrospectibleObjectAtRequest::Error(DBusError::NoBody))));

    let mut m = call(6, "/a", "org.freedesktop.DBus.Peer", "Hop", None);
    m.destination = Some("org.example.Svc");
    assert_eq!(obj.handle(m), Some((6, ":1.3", IntrospectibleObjectAtRequest::Error(DBusError::UnknownMember))));

    let mut m = call(7, "/a", "org.freedesktop.DBus.Peer", "Ping", None);
    m.destination = Some("org.other.Svc");
    assert_eq!(obj.handle(m), None);
}
