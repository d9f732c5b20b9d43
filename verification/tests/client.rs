//! Bus requests, signals and property names.
use lib::encoder::MessageType;
use lib::error::{DBusError, EncodeError};
use lib::incoming::{IncomingArrayValue, IncomingBody, IncomingMessage, IncomingValue};
use lib::messages::network_manager::SSID;
use lib::messages::org_freedesktop_dbus::{
    AddMatch, NameOwnerChangedSignal, RemoveMatch, Rule, Subscribe, Unsubscribe,
};
use lib::messages::sni_client::dbusmenu::DBusMenuItem;
use lib::messages::sni_client::dbusmenu::DBusMenuList;
use lib::messages::sni_client::dbusmenu::Property as MenuProperty;
use lib::messages::sni_client::sni::Property as ItemProperty;
use lib::messages::sni_host::{
    ItemsPropertiesUpdatedSignal, LayoutUpdatedSignal, LayoutUpdatedSubscribe, LayoutUpdatedUnsubscribe,
    NewIconSignal,
};

fn signal<'a>(path: &'a str, interface: &'a str, member: &'a str, sender: &'a str, body: Option<IncomingBody<'a>>) -> IncomingMessage<'a> {
    IncomingMessage {
        message_type: MessageType::Signal,
        serial: 1,
        path: Some(path),
        interface: Some(interface),
        member: Some(member),
        destination: None,
        sender: Some(sender),
        body,
    }
}

#[test]
fn test_dbusmenu_property_names_round_trip() {
    for p in [MenuProperty::Version, MenuProperty::TextDirection, MenuProperty::Status, MenuProperty::IconThemePath] {
        assert_eq!(MenuProperty::parse(p.as_str()), Some(p));
    }
    assert_eq!(MenuProperty::parse("version"), None);
}

#[test]
fn test_sni_property_names_round_trip() {
    for p in [
        ItemProperty::Category,
        ItemProperty::Id,
        ItemProperty::Title,
        ItemProperty::Status,
        ItemProperty::IconName,
        ItemProperty::IconPixmap,
        ItemProperty::Menu,
        ItemProperty::ItemIsMenu,
    ] {
        assert_eq!(ItemProperty::parse(p.as_str()), Some(p));
    }
    assert_eq!(ItemProperty::parse("Label"), None);
}

#[test]
fn test_subscribe_is_add_match_of_the_rule() {
    let mut a = [0u8; 512];
    let mut b = [0u8; 512];
    let n = Subscribe::encode(&mut a, Some(":1.4"), Some("/obj"), Some("org.example.I"), Some("Changed")).unwrap();
    let rule = "type='signal',sender=':1.4',interface='org.example.I',path='/obj',member='Changed'";
    let out = AddMatch::encode(rule, &mut b).unwrap();
    assert_eq!(&a[..n], out);
}

#[test]
fn test_unsubscribe_removes_the_subscribed_rule() {
    let mut a = [0u8; 512];
    let mut b = [0u8; 512];
    let out = Unsubscribe::encode((Some(":1.4"), Some("/obj"), None, Some("Changed")), &mut a).unwrap();
    let rule = "type='signal',sender=':1.4',path='/obj',member='Changed'";
    let expected = RemoveMatch::encode(&mut b, rule).unwrap();
    assert_eq!(out, expected);
}

#[test]
fn test_subscribe_rule_too_long() {
    let long = "p".repeat(1100);
    let mut buf = [9u8; 64];
    assert_eq!(
        Subscribe::encode(&mut buf, None, Some(&long), None, None),
        Err(EncodeError::BufferTooSmall)
    );
    assert!(buf.iter().all(|b| *b == 9));
}

#[test]
fn test_rule_fmt_all_fields_and_none() {
    let mut buf = [0u8; 128];
    let n = Rule::fmt(&mut buf, Some("S"), Some("I"), Some("P"), Some("M")).unwrap();
    assert_eq!(&buf[..n], b"type='signal',sender='S',interface='I',path='P',member='M'");
    let n = Rule::fmt(&mut buf, None, None, None, None).unwrap();
    assert_eq!(&buf[..n], b"type='signal'");
}

#[test]
fn test_rule_fmt_buffer_too_small() {
    let mut buf = [0u8; 10];
    assert_eq!(Rule::fmt(&mut buf, None, None, None, None), Err(EncodeError::BufferTooSmall));
}

#[test]
fn test_layout_updated_subscribe_pair() {
    let mut a = [0u8; 512];
    let mut b = [0u8; 512];
    let mut c = [0u8; 512];
    let n = LayoutUpdatedSubscribe::encode((":1.8", "/MenuBar"), &mut a).unwrap();
    let rule = "type='signal',sender=':1.8',interface='com.canonical.dbusmenu',path='/MenuBar',member='LayoutUpdated'";
    let added = AddMatch::encode(rule, &mut b).unwrap();
    assert_eq!(&a[..n], added);
    let removed = LayoutUpdatedUnsubscribe::encode((":1.8", "/MenuBar"), &mut c).unwrap();
    let mut d = [0u8; 512];
    assert_eq!(removed, RemoveMatch::encode(&mut d, rule).unwrap());
}

#[test]
fn test_layout_updated_signal_matches() {
    let m = signal("/MenuBar", "com.canonical.dbusmenu", "LayoutUpdated", ":1.8", None);
    assert!(LayoutUpdatedSignal::matches(m, ":1.8", "/MenuBar"));
    assert!(!LayoutUpdatedSignal::matches(m, ":1.9", "/MenuBar"));
    assert!(!LayoutUpdatedSignal::matches(m, ":1.8", "/Other"));
}

#[test]
fn test_name_owner_changed_transitions() {
    let appeared = [
        IncomingValue::String("org.kde.StatusNotifierWatcher"),
        IncomingValue::String(""),
        IncomingValue::String(":1.20"),
    ];
    let m = signal("/org/freedesktop/DBus", "org.freedesktop.DBus", "NameOwnerChanged", "org.freedesktop.DBus", Some(IncomingBody { values: &appeared }));
    let s = NameOwnerChangedSignal::handle(m).unwrap().unwrap();
    assert_eq!(s, NameOwnerChangedSignal::Appeared { name: "org.kde.StatusNotifierWatcher", owner: ":1.20" });
    assert_eq!(s.name(), "org.kde.StatusNotifierWatcher");

    let gone = [IncomingValue::String("a.b"), IncomingValue::String(":1.2"), IncomingValue::String("")];
    let m = signal("/org/freedesktop/DBus", "org.freedesktop.DBus", "NameOwnerChanged", "org.freedesktop.DBus", Some(IncomingBody { values: &gone }));
    assert_eq!(
        NameOwnerChangedSignal::handle(m).unwrap(),
        Some(NameOwnerChangedSignal::Disappeared { name: "a.b", owner: ":1.2" })
    );

    let moved = [IncomingValue::String("a.b"), IncomingValue::String(":1.2"), IncomingValue::String(":1.3")];
    let m = signal("/org/freedesktop/DBus", "org.freedesktop.DBus", "NameOwnerChanged", "org.freedesktop.DBus", Some(IncomingBody { values: &moved }));
    assert_eq!(
        NameOwnerChangedSignal::handle(m).unwrap().unwrap().name(),
        "a.b"
    );

    let nothing = [IncomingValue::String("a.b"), IncomingValue::String(""), IncomingValue::String("")];
    let m = signal("/org/freedesktop/DBus", "org.freedesktop.DBus", "NameOwnerChanged", "org.freedesktop.DBus", Some(IncomingBody { values: &nothing }));
    assert_eq!(NameOwnerChangedSignal::handle(m), Ok(None));
}

#[test]
fn test_name_owner_changed_errors() {
    let m = signal("/org/freedesktop/DBus", "org.freedesktop.DBus", "NameOwnerChanged", "org.freedesktop.DBus", None);
    assert_eq!(NameOwnerChangedSignal::handle(m), Err(DBusError::NoBody));
    let short = [IncomingValue::String("a.b")];
    let m = signal("/org/freedesktop/DBus", "org.freedesktop.DBus", "NameOwnerChanged", "org.freedesktop.DBus", Some(IncomingBody { values: &short }));
    assert_eq!(
        NameOwnerChangedSignal::handle(m),
        Err(DBusError::Other("can't parse NameOwnerChanged signal"))
    );
    let bad = [IncomingValue::String("a.b"), IncomingValue::Int32(1), IncomingValue::String("")];
    let m = signal("/org/freedesktop/DBus", "org.freedesktop.DBus", "NameOwnerChanged", "org.freedesktop.DBus", Some(IncomingBody { values: &bad }));
    assert_eq!(NameOwnerChangedSignal::handle(m), Err(DBusError::WrongValue));
    let other = signal("/x", "org.freedesktop.DBus", "NameOwnerChanged", "org.freedesktop.DBus", None);
    assert_eq!(NameOwnerChangedSignal::handle(other), Ok(None));
}

#[test]
fn test_ssid_map() {
    let items = vec![IncomingValue::Byte(b'w'), IncomingValue::Byte(b'i'), IncomingValue::Byte(b'f')];
    let (arr, len) = SSID::<4>::map(IncomingValue::Array(IncomingArrayValue { items: &items })).unwrap();
    assert_eq!(len, 3);
    assert_eq!(arr, [b'w', b'i', b'f', 0]);
    assert_eq!(
        SSID::<2>::map(IncomingValue::Array(IncomingArrayValue { items: &items })),
        Err(DBusError::Other("SSID is too long"))
    );
    let bad = vec![IncomingValue::Int32(1)];
    assert_eq!(
        SSID::<2>::map(IncomingValue::Array(IncomingArrayValue { items: &bad })),
        Err(DBusError::WrongValue)
    );
}

#[test]
fn test_find_in_searches_children_before_siblings() {
    let list = DBusMenuList {
        items: vec![
            DBusMenuItem::Submenu {
                id: 1,
                label: "Sub",
                enabled: true,
                visible: true,
                children: DBusMenuList {
                    items: vec![DBusMenuItem::Regular { id: 7, label: "inner", enabled: true, visible: true }],
                },
            },
            DBusMenuItem::Regular { id: 7, label: "outer", enabled: true, visible: true },
        ],
    };
    match DBusMenuItem::find_in(&list, 7) {
        Some(DBusMenuItem::Regular { label, .. }) => assert_eq!(*label, "inner"),
        other => panic!("unexpected {:?}", other),
    }
    assert!(DBusMenuItem::find_in(&list, 3).is_none());
}

#[test]
fn test_new_icon_signal_matches_subscription() {
    let m = signal("/StatusNotifierItem", "org.kde.StatusNotifierItem", "NewIcon", ":1.8", None);
    assert!(NewIconSignal::matches(m, ":1.8"));
    let other = signal("/StatusNotifierItem", "org.kde.StatusNotifierItem", "NewTitle", ":1.8", None);
    assert!(!NewIconSignal::matches(other, ":1.8"));
}

#[test]
fn test_layout_updated_needs_its_member() {
    let m = signal("/MenuBar", "com.canonical.dbusmenu", "ItemsPropertiesUpdated", ":1.8", None);
    assert!(!LayoutUpdatedSignal::matches(m, ":1.8", "/MenuBar"));
    assert!(ItemsPropertiesUpdatedSignal::matches(m, ":1.8", "/MenuBar"));
    let l = signal("/MenuBar", "com.canonical.dbusmenu", "LayoutUpdated", ":1.8", None);
    assert!(!ItemsPropertiesUpdatedSignal::matches(l, ":1.8", "/MenuBar"));
}

#[test]
fn test_rule_fmt_writes_the_pieces_that_fit() {
    let mut buf = [b'#'; 20];
    assert_eq!(Rule::fmt(&mut buf, Some("SENDER"), None, None, None), Err(EncodeError::BufferTooSmall));
    assert_eq!(&buf[..13], b"type='signal'");
    assert_eq!(&buf[13..], b"#######");
}
