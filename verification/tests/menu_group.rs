//! Group requests to a menu: malformed ones are answered with the
//! unknown-method error, and `AboutToShowGroup` asks about ids only while
//! their updates fit into the reply buffer.
use lib::encoder::MessageType;
use lib::error::{DBusError, EncodeError};
use lib::incoming::{IncomingArrayValue, IncomingBody, IncomingMessage, IncomingValue};
use lib::messages::sni_client::dbusmenu::handler::StatusNotifierMenuHandler;
use lib::messages::sni_client::dbusmenu::{DBusMenuData, DBusMenuEvent, DBusMenuItem, DBusMenuList, MenuState};
use lib::messages::sni_host::get_layout::GetLayout;
use lib::messages::ErrorNoMethod;

/// Menu state that wants an update for every id and records the ids it was asked about.
struct Recorder {
    asked: Vec<i32>,
    events: Vec<i32>,
    menu: DBusMenuList<'static>,
}

impl DBusMenuData for Recorder {
    fn spec_revision(&self) -> u32 {
        unreachable!()
    }

    fn spec_menu(&self) -> vstd::seq::Seq<DBusMenuItem<'_>> {
        unreachable!()
    }

    fn spec_about_to_show(&self, _id: i32) -> bool {
        unreachable!()
    }

    fn after_about_to_show(&self, _id: i32) -> Self {
        unreachable!()
    }

    fn after_event(&self, _event: DBusMenuEvent) -> Self {
        unreachable!()
    }

    fn revision(&self) -> u32 {
        1
    }

    fn menu(&self) -> &DBusMenuList<'_> {
        &self.menu
    }

    fn about_to_show(&mut self, id: i32) -> bool {
        self.asked.push(id);
        true
    }

    fn event(&mut self, event: DBusMenuEvent<'_>) {
        self.events.push(event.id);
    }
}

fn recorder() -> Recorder {
    Recorder { asked: Vec::new(), events: Vec::new(), menu: DBusMenuList { items: Vec::new() } }
}

fn menu_call<'a>(member: &'a str, body: IncomingBody<'a>) -> IncomingMessage<'a> {
    IncomingMessage {
        message_type: MessageType::MethodCall,
        serial: 9,
        path: Some("/MenuBar"),
        interface: Some("com.canonical.dbusmenu"),
        member: Some(member),
        destination: Some(":1.5"),
        sender: Some(":1.6"),
        body: Some(body),
    }
}

fn no_method_bytes() -> Vec<u8> {
    let mut buf = [0u8; 512];
    ErrorNoMethod::encode((":1.6", 9), &mut buf).unwrap().to_vec()
}

#[test]
fn test_malformed_event_group_gets_error_reply() {
    let zero = IncomingValue::Int32(0);
    let good = vec![
        IncomingValue::Int32(4),
        IncomingValue::String("clicked"),
        IncomingValue::Variant(&zero),
        IncomingValue::UInt32(7),
    ];
    let events = vec![IncomingValue::Struct(lib::incoming::IncomingStructValue { fields: &good }), IncomingValue::Int32(1)];
    let args = [IncomingValue::Array(IncomingArrayValue { items: &events })];
    let m = menu_call("EventGroup", IncomingBody { values: &args });
    let mut data = recorder();
    let mut buf = [0u8; 512];
    let out = StatusNotifierMenuHandler::handle(&mut buf, m, "org.example", "/MenuBar", &mut data).unwrap().unwrap();
    assert_eq!(out.to_vec(), no_method_bytes());
    assert_eq!(data.events, vec![4]);
}

#[test]
fn test_malformed_about_to_show_group_gets_error_reply() {
    let ids = vec![IncomingValue::Int32(3), IncomingValue::String("x"), IncomingValue::Int32(5)];
    let args = [IncomingValue::Array(IncomingArrayValue { items: &ids })];
    let m = menu_call("AboutToShowGroup", IncomingBody { values: &args });
    let mut data = recorder();
    let mut buf = [0u8; 512];
    let out = StatusNotifierMenuHandler::handle(&mut buf, m, "org.example", "/MenuBar", &mut data).unwrap().unwrap();
    assert_eq!(out.to_vec(), no_method_bytes());
    assert_eq!(data.asked, vec![3]);
}

#[test]
fn test_malformed_group_properties_gets_error_reply() {
    let ids = vec![IncomingValue::Bool(true)];
    let names: Vec<IncomingValue> = Vec::new();
    let args = [
        IncomingValue::Array(IncomingArrayValue { items: &ids }),
        IncomingValue::Array(IncomingArrayValue { items: &names }),
    ];
    let m = menu_call("GetGroupProperties", IncomingBody { values: &args });
    let mut data = MenuState {
        revision: 1,
        menu: DBusMenuList { items: vec![DBusMenuItem::Regular { id: 1, label: "A", enabled: true, visible: true }] },
    };
    let mut buf = [0u8; 512];
    let out = StatusNotifierMenuHandler::handle(&mut buf, m, "org.example", "/MenuBar", &mut data).unwrap().unwrap();
    assert_eq!(out.to_vec(), no_method_bytes());
}

/// Length of the `AboutToShowGroup` reply before its first update.
fn group_head_len() -> usize {
    let ids = vec![IncomingValue::Int32(1)];
    let args = [IncomingValue::Array(IncomingArrayValue { items: &ids })];
    let m = menu_call("AboutToShowGroup", IncomingBody { values: &args });
    let mut data = recorder();
    let mut buf = [0u8; 512];
    let out = StatusNotifierMenuHandler::handle(&mut buf, m, "org.example", "/MenuBar", &mut data).unwrap().unwrap();
    // the reply ends with the id (4 bytes) and the empty error array (4 bytes)
    assert_eq!(&out[out.len() - 8..], &[1, 0, 0, 0, 0, 0, 0, 0]);
    out.len() - 12
}

#[test]
fn test_about_to_show_group_stops_at_first_update_that_does_not_fit() {
    let head = group_head_len();
    let ids = vec![IncomingValue::Int32(1), IncomingValue::Int32(2), IncomingValue::Int32(3)];
    let args = [IncomingValue::Array(IncomingArrayValue { items: &ids })];
    let m = menu_call("AboutToShowGroup", IncomingBody { values: &args });

    // room for the array length and one update
    let mut data = recorder();
    let mut buf = vec![0u8; head + 8];
    assert_eq!(
        StatusNotifierMenuHandler::handle(&mut buf, m, "org.example", "/MenuBar", &mut data),
        Err(DBusError::EncodeError(EncodeError::BufferTooSmall))
    );
    assert_eq!(data.asked, vec![1, 2]);
    assert!(buf.iter().all(|b| *b == 0));

    // no room even for the array length: nothing is asked
    let mut data = recorder();
    let mut buf = vec![0u8; head + 3];
    assert_eq!(
        StatusNotifierMenuHandler::handle(&mut buf, m, "org.example", "/MenuBar", &mut data),
        Err(DBusError::EncodeError(EncodeError::BufferTooSmall))
    );
    assert!(data.asked.is_empty());

    // every update fits, the error array does not
    let mut data = recorder();
    let mut buf = vec![0u8; head + 4 + 12 + 3];
    assert_eq!(
        StatusNotifierMenuHandler::handle(&mut buf, m, "org.example", "/MenuBar", &mut data),
        Err(DBusError::EncodeError(EncodeError::BufferTooSmall))
    );
    assert_eq!(data.asked, vec![1, 2, 3]);

    // exactly enough room
    let mut data = recorder();
    let mut buf = vec![0u8; head + 4 + 12 + 4];
    let out = StatusNotifierMenuHandler::handle(&mut buf, m, "org.example", "/MenuBar", &mut data).unwrap().unwrap();
    assert_eq!(out.len(), head + 20);
    assert_eq!(&out[head..], &[12, 0, 0, 0, 1, 0, 0, 0, 2, 0, 0, 0, 3, 0, 0, 0, 0, 0, 0, 0]);
    assert_eq!(data.asked, vec![1, 2, 3]);
}

#[test]
fn test_cuts_label_inside_char() {
    let mut long = "a".repeat(99);
    long.push('é');
    let long: &'static str = Box::leak(long.into_boxed_str());
    let label_value = IncomingValue::String(long);
    let entry = lib::incoming::IncomingDictEntryValue { key: &IncomingValue::String("label"), value: &IncomingValue::Variant(&label_value) };
    let props = vec![IncomingValue::DictEntry(entry)];
    let children: Vec<IncomingValue> = Vec::new();
    let item_fields = vec![
        IncomingValue::Int32(1),
        IncomingValue::Array(IncomingArrayValue { items: &props }),
        IncomingValue::Array(IncomingArrayValue { items: &children }),
    ];
    let item = IncomingValue::Struct(lib::incoming::IncomingStructValue { fields: &item_fields });
    let items = vec![IncomingValue::Variant(&item)];
    let no_props: Vec<IncomingValue> = Vec::new();
    let root_fields = vec![
        IncomingValue::Int32(0),
        IncomingValue::Array(IncomingArrayValue { items: &no_props }),
        IncomingValue::Array(IncomingArrayValue { items: &items }),
    ];
    let values = [IncomingValue::UInt32(1), IncomingValue::Struct(lib::incoming::IncomingStructValue { fields: &root_fields })];
    let layout = GetLayout::new(":1.9");
    assert!(layout.cuts_label_inside_char(IncomingBody { values: &values }));

    let short_value = IncomingValue::String("plain");
    let entry2 = lib::incoming::IncomingDictEntryValue { key: &IncomingValue::String("label"), value: &IncomingValue::Variant(&short_value) };
    let props2 = vec![IncomingValue::DictEntry(entry2)];
    let item_fields2 = vec![
        IncomingValue::Int32(1),
        IncomingValue::Array(IncomingArrayValue { items: &props2 }),
        IncomingValue::Array(IncomingArrayValue { items: &children }),
    ];
    let item2 = IncomingValue::Struct(lib::incoming::IncomingStructValue { fields: &item_fields2 });
    let items2 = vec![IncomingValue::Variant(&item2)];
    let root_fields2 = vec![
        IncomingValue::Int32(0),
        IncomingValue::Array(IncomingArrayValue { items: &no_props }),
        IncomingValue::Array(IncomingArrayValue { items: &items2 }),
    ];
    let values2 = [IncomingValue::UInt32(1), IncomingValue::Struct(lib::incoming::IncomingStructValue { fields: &root_fields2 })];
    let body2 = IncomingBody { values: &values2 };
    assert!(!layout.cuts_label_inside_char(body2));
    assert_eq!(layout.handle_reply_body(body2).unwrap().items.len(), 1);
}
