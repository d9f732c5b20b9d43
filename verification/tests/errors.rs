//! Each error of the library, on an input that gives it, and how requests are read.
use lib::encoder::MessageType;
use lib::error::{DBusError, EncodeError};
use lib::incoming::{IncomingBody, IncomingMessage, IncomingValue};
use lib::messages::introspect::IntrospectRequest;
use lib::messages::org_freedesktop_dbus::AddMatch;
use lib::messages::sni_client::dbusmenu::handler::StatusNotifierMenuHandler;
use lib::messages::sni_client::dbusmenu::request::Request;
use lib::messages::sni_client::dbusmenu::{DBusMenuItem, DBusMenuList, MenuState};

fn introspect_call() -> IncomingMessage<'static> {
    IncomingMessage {
        message_type: MessageType::MethodCall,
        serial: 4,
        path: Some("/"),
        interface: Some("org.freedesktop.DBus.Introspectable"),
        member: Some("Introspect"),
        destination: Some("org.example.Svc"),
        sender: Some(":1.1"),
        body: None,
    }
}

#[test]
fn test_introspect_request_accepts_call() {
    let r = IntrospectRequest::try_from(introspect_call()).unwrap();
    assert_eq!((r.serial, r.destination, r.path, r.sender), (4, "org.example.Svc", "/", ":1.1"));
    assert!(IntrospectRequest::try_parse(introspect_call()).is_some());
}

#[test]
fn test_introspect_request_errors() {
    let vals = [IncomingValue::Int32(1)];
    let cases: Vec<(IncomingMessage, DBusError)> = vec![
        (IncomingMessage { message_type: MessageType::Signal, ..introspect_call() }, DBusError::WrongMessageType),
        (IncomingMessage { path: None, ..introspect_call() }, DBusError::NoPath),
        (IncomingMessage { member: None, ..introspect_call() }, DBusError::NoMember),
        (IncomingMessage { interface: None, ..introspect_call() }, DBusError::NoInterface),
        (IncomingMessage { destination: None, ..introspect_call() }, DBusError::NoDestination),
        (IncomingMessage { sender: None, ..introspect_call() }, DBusError::NoSender),
        (
            IncomingMessage { body: Some(IncomingBody { values: &vals }), ..introspect_call() },
            DBusError::UnexpectedBody,
        ),
        (IncomingMessage { path: Some("/x"), ..introspect_call() }, DBusError::WrongPath),
        (IncomingMessage { member: Some("Nope"), ..introspect_call() }, DBusError::WrongMember),
        (IncomingMessage { interface: Some("org.x"), ..introspect_call() }, DBusError::WrongInterface),
    ];
    for (m, e) in cases {
        assert_eq!(IntrospectRequest::try_from(m).unwrap_err(), e);
        assert!(IntrospectRequest::try_parse(m).is_none());
    }
}

fn menu_call<'a>(interface: &'a str, member: &'a str, body: Option<IncomingBody<'a>>) -> IncomingMessage<'a> {
    IncomingMessage {
        message_type: MessageType::MethodCall,
        serial: 9,
        path: Some("/MenuBar"),
        interface: Some(interface),
        member: Some(member),
        destination: Some(":1.5"),
        sender: Some(":1.6"),
        body,
    }
}

#[test]
fn test_menu_request_errors() {
    let props = [IncomingValue::String("com.canonical.dbusmenu"), IncomingValue::String("Nope")];
    let m = menu_call("org.freedesktop.DBus.Properties", "Get", Some(IncomingBody { values: &props }));
    assert!(matches!(Request::parse(m, "org.example", "/MenuBar"), Err(DBusError::NoPropertyName)));

    let other = [IncomingValue::String("org.x"), IncomingValue::String("Version")];
    let m = menu_call("org.freedesktop.DBus.Properties", "Get", Some(IncomingBody { values: &other }));
    assert!(matches!(Request::parse(m, "org.example", "/MenuBar"), Err(DBusError::WrongInterface)));

    let m = menu_call("com.canonical.dbusmenu", "Explode", None);
    assert!(matches!(Request::parse(m, "org.example", "/MenuBar"), Err(DBusError::UnknownMember)));

    let m = menu_call("com.canonical.dbusmenu", "AboutToShow", None);
    assert!(matches!(Request::parse(m, "org.example", "/MenuBar"), Err(DBusError::NoBody)));

    let bad = [IncomingValue::String("1")];
    let m = menu_call("com.canonical.dbusmenu", "AboutToShow", Some(IncomingBody { values: &bad }));
    assert!(matches!(Request::parse(m, "org.example", "/MenuBar"), Err(DBusError::WrongValue)));

    let ok = [IncomingValue::Int32(3)];
    let m = menu_call("com.canonical.dbusmenu", "AboutToShow", Some(IncomingBody { values: &ok }));
    assert!(matches!(Request::parse(m, "org.example", "/MenuBar"), Ok(Some(Request::AboutToShow { id: 3 }))));

    let m = menu_call("org.example.Other", "Anything", None);
    assert!(matches!(Request::parse(m, "org.example", "/MenuBar"), Ok(None)));
}

#[test]
fn test_menu_handler_encode_error() {
    let mut data = MenuState {
        revision: 1,
        menu: DBusMenuList { items: vec![DBusMenuItem::Regular { id: 1, label: "A", enabled: true, visible: true }] },
    };
    let args = [IncomingValue::Int32(1)];
    let m = menu_call("com.canonical.dbusmenu", "AboutToShow", Some(IncomingBody { values: &args }));
    let mut buf = [0u8; 16];
    assert_eq!(
        StatusNotifierMenuHandler::handle(&mut buf, m, "org.example", "/MenuBar", &mut data),
        Err(DBusError::EncodeError(EncodeError::BufferTooSmall))
    );
    let mut big = [0u8; 512];
    assert!(StatusNotifierMenuHandler::handle(&mut big, m, "org.example", "/MenuBar", &mut data).unwrap().is_some());
}

#[test]
fn test_message_too_long() {
    let rule = "x".repeat(0x0800_0000);
    let mut buf = [0u8; 64];
    assert_eq!(AddMatch::encode(&rule, &mut buf), Err(EncodeError::ValueTooLong));
}

#[test]
fn test_menu_reads_host_event() {
    let zero = IncomingValue::Int32(0);
    let vals = [
        IncomingValue::Int32(12),
        IncomingValue::String("clicked"),
        IncomingValue::Variant(&zero),
        IncomingValue::UInt32(99),
    ];
    let m = menu_call("com.canonical.dbusmenu", "Event", Some(IncomingBody { values: &vals }));
    match Request::parse(m, "org.example", "/MenuBar") {
        Ok(Some(Request::Event { event })) => {
            assert_eq!(event.id, 12);
            assert!(matches!(event.kind, lib::messages::sni_client::dbusmenu::DBusMenuEventKind::Clicked));
            assert_eq!(event.timestamp, 99);
        },
        _ => panic!("not an event"),
    }
}

#[test]
fn test_menu_reads_host_get_layout() {
    let names: Vec<IncomingValue> = vec![IncomingValue::String("label")];
    let vals = [
        IncomingValue::Int32(0),
        IncomingValue::Int32(-1),
        IncomingValue::Array(lib::incoming::IncomingArrayValue { items: &names }),
    ];
    let m = menu_call("com.canonical.dbusmenu", "GetLayout", Some(IncomingBody { values: &vals }));
    assert!(matches!(
        Request::parse(m, "org.example", "/MenuBar"),
        Ok(Some(Request::GetLayout { parent: 0, depth: -1 }))
    ));
}

#[test]
fn test_item_reads_host_icon_get() {
    let vals = [IncomingValue::String("org.kde.StatusNotifierItem"), IncomingValue::String("IconPixmap")];
    let m = IncomingMessage {
        message_type: MessageType::MethodCall,
        serial: 2,
        path: Some("/StatusNotifierItem"),
        interface: Some("org.freedesktop.DBus.Properties"),
        member: Some("Get"),
        destination: Some("org.kde.StatusNotifierItem-7-1"),
        sender: Some(":1.3"),
        body: Some(IncomingBody { values: &vals }),
    };
    let r = lib::messages::sni_client::sni::introspection::ItemRequest::parse(m, "org.kde.StatusNotifierItem-7-1");
    assert!(matches!(
        r,
        Some(lib::messages::sni_client::sni::introspection::ItemRequest::GetProperty {
            property: lib::messages::sni_client::sni::Property::IconPixmap
        })
    ));
}
