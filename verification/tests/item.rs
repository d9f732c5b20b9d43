//! Replies of a StatusNotifierItem and of its dbusmenu, byte for byte.
use lib::encoder::MessageType;
use lib::incoming::{IncomingBody, IncomingMessage, IncomingValue};
use lib::messages::sni_client::dbusmenu::{DBusMenuItem, DBusMenuList, GetLayout};
use lib::messages::sni_client::sni::{
    ItemState, StatusNotifierItemCategory, StatusNotifierItemHandler, StatusNotifierItemStatus,
};

fn menu() -> DBusMenuList<'static> {
    DBusMenuList {
        items: vec![
            DBusMenuItem::Submenu {
                id: 1,
                label: "Sub",
                enabled: true,
                visible: true,
                children: DBusMenuList {
                    items: vec![DBusMenuItem::Regular { id: 2, label: "A", enabled: true, visible: true }],
                },
            },
            DBusMenuItem::Separator { id: 3, visible: true },
            DBusMenuItem::Checkbox { id: 4, label: "C", checked: true, enabled: false, visible: true },
        ],
    }
}

#[test]
fn test_menu_layout_whole_tree() {
    let mut buf = [0u8; 2048];
    let out = GetLayout::reply(&mut buf, 21, ":1.6", 5, &menu(), 0, -1).unwrap();
    let expected: &[u8] = &[108, 2, 0, 1, 40, 2, 0, 0, 0, 0, 0, 0, 41, 0, 0, 0, 5, 1, 117, 0, 21, 0, 0, 0, 6, 1, 115, 0, 4, 0, 0, 0, 58, 49, 46, 54, 0, 0, 0, 0, 8, 1, 103, 0, 11, 117, 40, 105, 97, 123, 115, 118, 125, 97, 118, 41, 0, 0, 0, 0, 0, 0, 0, 0, 5, 0, 0, 0, 0, 0, 0, 0, 0, 0, 0, 0, 36, 0, 0, 0, 16, 0, 0, 0, 99, 104, 105, 108, 100, 114, 101, 110, 45, 100, 105, 115, 112, 108, 97, 121, 0, 1, 115, 0, 7, 0, 0, 0, 115, 117, 98, 109, 101, 110, 117, 0, 240, 1, 0, 0, 10, 40, 105, 97, 123, 115, 118, 125, 97, 118, 41, 0, 0, 0, 0, 0, 1, 0, 0, 0, 108, 0, 0, 0, 5, 0, 0, 0, 108, 97, 98, 101, 108, 0, 1, 115, 0, 0, 0, 0, 3, 0, 0, 0, 83, 117, 98, 0, 16, 0, 0, 0, 99, 104, 105, 108, 100, 114, 101, 110, 45, 100, 105, 115, 112, 108, 97, 121, 0, 1, 115, 0, 7, 0, 0, 0, 115, 117, 98, 109, 101, 110, 117, 0, 0, 0, 0, 0, 7, 0, 0, 0, 118, 105, 115, 105, 98, 108, 101, 0, 1, 98, 0, 0, 1, 0, 0, 0, 0, 0, 0, 0, 7, 0, 0, 0, 101, 110, 97, 98, 108, 101, 100, 0, 1, 98, 0, 0, 1, 0, 0, 0, 96, 0, 0, 0, 10, 40, 105, 97, 123, 115, 118, 125, 97, 118, 41, 0, 0, 0, 0, 0, 2, 0, 0, 0, 68, 0, 0, 0, 5, 0, 0, 0, 108, 97, 98, 101, 108, 0, 1, 115, 0, 0, 0, 0, 1, 0, 0, 0, 65, 0, 0, 0, 7, 0, 0, 0, 118, 105, 115, 105, 98, 108, 101, 0, 1, 98, 0, 0, 1, 0, 0, 0, 0, 0, 0, 0, 7, 0, 0, 0, 101, 110, 97, 98, 108, 101, 100, 0, 1, 98, 0, 0, 1, 0, 0, 0, 0, 0, 0, 0, 10, 40, 105, 97, 123, 115, 118, 125, 97, 118, 41, 0, 0, 0, 0, 0, 3, 0, 0, 0, 76, 0, 0, 0, 4, 0, 0, 0, 116, 121, 112, 101, 0, 1, 115, 0, 9, 0, 0, 0, 115, 101, 112, 97, 114, 97, 116, 111, 114, 0, 0, 0, 0, 0, 0, 0, 7, 0, 0, 0, 118, 105, 115, 105, 98, 108, 101, 0, 1, 98, 0, 0, 1, 0, 0, 0, 0, 0, 0, 0, 7, 0, 0, 0, 101, 110, 97, 98, 108, 101, 100, 0, 1, 98, 0, 0, 0, 0, 0, 0, 0, 0, 0, 0, 10, 40, 105, 97, 123, 115, 118, 125, 97, 118, 41, 0, 0, 0, 0, 0, 4, 0, 0, 0, 132, 0, 0, 0, 5, 0, 0, 0, 108, 97, 98, 101, 108, 0, 1, 115, 0, 0, 0, 0, 1, 0, 0, 0, 67, 0, 0, 0, 11, 0, 0, 0, 116, 111, 103, 103, 108, 101, 45, 116, 121, 112, 101, 0, 1, 115, 0, 0, 9, 0, 0, 0, 99, 104, 101, 99, 107, 109, 97, 114, 107, 0, 0, 0, 0, 0, 0, 0, 12, 0, 0, 0, 116, 111, 103, 103, 108, 101, 45, 115, 116, 97, 116, 101, 0, 1, 105, 0, 1, 0, 0, 0, 7, 0, 0, 0, 118, 105, 115, 105, 98, 108, 101, 0, 1, 98, 0, 0, 1, 0, 0, 0, 0, 0, 0, 0, 7, 0, 0, 0, 101, 110, 97, 98, 108, 101, 100, 0, 1, 98, 0, 0, 0, 0, 0, 0, 0, 0, 0, 0];
    assert_eq!(out, expected);
}

#[test]
fn test_menu_layout_depth_zero() {
    let mut buf = [0u8; 2048];
    let out = GetLayout::reply(&mut buf, 22, ":1.6", 5, &menu(), 0, 0).unwrap();
    let expected: &[u8] = &[108, 2, 0, 1, 56, 0, 0, 0, 0, 0, 0, 0, 41, 0, 0, 0, 5, 1, 117, 0, 22, 0, 0, 0, 6, 1, 115, 0, 4, 0, 0, 0, 58, 49, 46, 54, 0, 0, 0, 0, 8, 1, 103, 0, 11, 117, 40, 105, 97, 123, 115, 118, 125, 97, 118, 41, 0, 0, 0, 0, 0, 0, 0, 0, 5, 0, 0, 0, 0, 0, 0, 0, 0, 0, 0, 0, 36, 0, 0, 0, 16, 0, 0, 0, 99, 104, 105, 108, 100, 114, 101, 110, 45, 100, 105, 115, 112, 108, 97, 121, 0, 1, 115, 0, 7, 0, 0, 0, 115, 117, 98, 109, 101, 110, 117, 0, 0, 0, 0, 0];
    assert_eq!(out, expected);
}

#[test]
fn test_menu_layout_below_item() {
    let mut buf = [0u8; 2048];
    let out = GetLayout::reply(&mut buf, 23, ":1.6", 5, &menu(), 1, 1).unwrap();
    let expected: &[u8] = &[108, 2, 0, 1, 232, 0, 0, 0, 0, 0, 0, 0, 41, 0, 0, 0, 5, 1, 117, 0, 23, 0, 0, 0, 6, 1, 115, 0, 4, 0, 0, 0, 58, 49, 46, 54, 0, 0, 0, 0, 8, 1, 103, 0, 11, 117, 40, 105, 97, 123, 115, 118, 125, 97, 118, 41, 0, 0, 0, 0, 0, 0, 0, 0, 5, 0, 0, 0, 10, 40, 105, 97, 123, 115, 118, 125, 97, 118, 41, 0, 1, 0, 0, 0, 108, 0, 0, 0, 5, 0, 0, 0, 108, 97, 98, 101, 108, 0, 1, 115, 0, 0, 0, 0, 3, 0, 0, 0, 83, 117, 98, 0, 16, 0, 0, 0, 99, 104, 105, 108, 100, 114, 101, 110, 45, 100, 105, 115, 112, 108, 97, 121, 0, 1, 115, 0, 7, 0, 0, 0, 115, 117, 98, 109, 101, 110, 117, 0, 0, 0, 0, 0, 7, 0, 0, 0, 118, 105, 115, 105, 98, 108, 101, 0, 1, 98, 0, 0, 1, 0, 0, 0, 0, 0, 0, 0, 7, 0, 0, 0, 101, 110, 97, 98, 108, 101, 100, 0, 1, 98, 0, 0, 1, 0, 0, 0, 96, 0, 0, 0, 10, 40, 105, 97, 123, 115, 118, 125, 97, 118, 41, 0, 0, 0, 0, 0, 2, 0, 0, 0, 68, 0, 0, 0, 5, 0, 0, 0, 108, 97, 98, 101, 108, 0, 1, 115, 0, 0, 0, 0, 1, 0, 0, 0, 65, 0, 0, 0, 7, 0, 0, 0, 118, 105, 115, 105, 98, 108, 101, 0, 1, 98, 0, 0, 1, 0, 0, 0, 0, 0, 0, 0, 7, 0, 0, 0, 101, 110, 97, 98, 108, 101, 100, 0, 1, 98, 0, 0, 1, 0, 0, 0, 0, 0, 0, 0];
    assert_eq!(out, expected);
}

#[test]
fn test_menu_layout_unknown_parent() {
    let mut buf = [0u8; 2048];
    let out = GetLayout::reply(&mut buf, 24, ":1.6", 5, &menu(), 42, -1).unwrap();
    let expected: &[u8] = &[108, 2, 0, 1, 4, 0, 0, 0, 0, 0, 0, 0, 41, 0, 0, 0, 5, 1, 117, 0, 24, 0, 0, 0, 6, 1, 115, 0, 4, 0, 0, 0, 58, 49, 46, 54, 0, 0, 0, 0, 8, 1, 103, 0, 11, 117, 40, 105, 97, 123, 115, 118, 125, 97, 118, 41, 0, 0, 0, 0, 0, 0, 0, 0, 5, 0, 0, 0];
    assert_eq!(out, expected);
}

fn item() -> ItemState<'static> {
    ItemState {
        id: "my-app",
        title: "My App",
        status: StatusNotifierItemStatus::Active,
        category: StatusNotifierItemCategory::ApplicationStatus,
        icon_name: "my-icon",
        icon_pixmap: None,
        menu: "/MenuBar",
        item_is_menu: false,
    }
}

fn item_call<'a>(serial: u32, path: &'a str, interface: &'a str, member: &'a str, body: Option<IncomingBody<'a>>) -> IncomingMessage<'a> {
    IncomingMessage {
        message_type: MessageType::MethodCall,
        serial,
        path: Some(path),
        interface: Some(interface),
        member: Some(member),
        destination: Some("org.kde.StatusNotifierItem-1-1"),
        sender: Some(":1.2"),
        body,
    }
}

#[test]
fn test_item_get_id() {
    let args = [IncomingValue::String("org.kde.StatusNotifierItem"), IncomingValue::String("Id")];
    let m = item_call(31, "/StatusNotifierItem", "org.freedesktop.DBus.Properties", "Get", Some(IncomingBody { values: &args }));
    let mut buf = [0u8; 512];
    let handler = StatusNotifierItemHandler::new("org.kde.StatusNotifierItem-1-1");
    let out = handler.handle(&mut buf, m, &item()).unwrap().unwrap();
    let expected: &[u8] = &[108, 2, 0, 1, 15, 0, 0, 0, 0, 0, 0, 0, 31, 0, 0, 0, 5, 1, 117, 0, 31, 0, 0, 0, 6, 1, 115, 0, 4, 0, 0, 0, 58, 49, 46, 50, 0, 0, 0, 0, 8, 1, 103, 0, 1, 118, 0, 0, 1, 115, 0, 0, 6, 0, 0, 0, 109, 121, 45, 97, 112, 112, 0];
    assert_eq!(out, expected);
}

#[test]
fn test_item_unknown_property_is_ignored() {
    let args = [IncomingValue::String("org.kde.StatusNotifierItem"), IncomingValue::String("Nope")];
    let m = item_call(32, "/StatusNotifierItem", "org.freedesktop.DBus.Properties", "Get", Some(IncomingBody { values: &args }));
    let mut buf = [0u8; 512];
    let handler = StatusNotifierItemHandler::new("org.kde.StatusNotifierItem-1-1");
    assert_eq!(handler.handle(&mut buf, m, &item()), Ok(None));
}

#[test]
fn test_item_get_all_lists_every_property() {
    let args = [IncomingValue::String("org.kde.StatusNotifierItem")];
    let m = item_call(33, "/StatusNotifierItem", "org.freedesktop.DBus.Properties", "GetAll", Some(IncomingBody { values: &args }));
    let mut buf = [0u8; 1024];
    let handler = StatusNotifierItemHandler::new(":1.77");
    let mut m2 = m;
    m2.destination = Some(":1.77");
    let out = handler.handle(&mut buf, m2, &item()).unwrap().unwrap();
    let text = String::from_utf8_lossy(out);
    for name in ["Category", "Id", "Title", "Status", "IconName", "IconPixmap", "Menu", "ItemIsMenu"] {
        assert!(text.contains(name));
    }
    assert!(text.contains("ApplicationStatus"));
    assert!(text.contains("Active"));
}

#[test]
fn test_item_introspect_root() {
    let m = item_call(34, "/", "org.freedesktop.DBus.Introspectable", "Introspect", None);
    let mut buf = [0u8; 4096];
    let handler = StatusNotifierItemHandler::new("org.kde.StatusNotifierItem-1-1");
    let out = handler.handle(&mut buf, m, &item()).unwrap().unwrap();
    let text = String::from_utf8_lossy(out);
    assert!(text.contains("<node name=\"StatusNotifierItem\"/>"));
}
