//! Reading properties and menus on the host side.
use lib::error::DBusError;
use lib::incoming::{
    IncomingArrayValue, IncomingBody, IncomingDictEntryValue, IncomingStructValue, IncomingValue,
};
use lib::messages::sni_host::{GetLayout, GetLayoutItem, GetLayoutList, IconName, IconPixmap};

fn bytes(v: &[u8]) -> Vec<IncomingValue<'static>> {
    v.iter().map(|b| IncomingValue::Byte(*b)).collect()
}

#[test]
fn test_icon_pixmap_argb_to_rgba() {
    // two pixels in ARGB, then a trailing partial pixel that is dropped
    let px = bytes(&[1, 2, 3, 4, 10, 20, 30, 40, 9, 9]);
    let fields = vec![
        IncomingValue::Int32(2),
        IncomingValue::Int32(1),
        IncomingValue::Array(IncomingArrayValue { items: &px }),
    ];
    let images = vec![IncomingValue::Struct(IncomingStructValue { fields: &fields })];
    let value = IncomingValue::Array(IncomingArrayValue { items: &images });
    let (w, h, rgba) = IconPixmap::map::<Vec<u8>>(value).unwrap();
    assert_eq!((w, h), (2, 1));
    assert_eq!(rgba, vec![2, 3, 4, 1, 20, 30, 40, 10]);
}

#[test]
fn test_icon_pixmap_no_image() {
    let images: Vec<IncomingValue> = vec![];
    let value = IncomingValue::Array(IncomingArrayValue { items: &images });
    assert_eq!(
        IconPixmap::map::<Vec<u8>>(value).unwrap_err(),
        DBusError::Other("failed to parse IconPixmap proeprty")
    );
}

#[test]
fn test_icon_pixmap_missing_height() {
    let fields = vec![IncomingValue::Int32(2)];
    let images = vec![IncomingValue::Struct(IncomingStructValue { fields: &fields })];
    let value = IncomingValue::Array(IncomingArrayValue { items: &images });
    assert_eq!(
        IconPixmap::map::<Vec<u8>>(value).unwrap_err(),
        DBusError::Other("failed to parse IconPixmap proeprty")
    );
}

#[test]
fn test_icon_pixmap_non_byte_in_trailing_group() {
    let px = vec![
        IncomingValue::Byte(1),
        IncomingValue::Byte(2),
        IncomingValue::Byte(3),
        IncomingValue::Byte(4),
        IncomingValue::Byte(5),
        IncomingValue::Int32(6),
    ];
    let fields = vec![
        IncomingValue::Int32(1),
        IncomingValue::Int32(1),
        IncomingValue::Array(IncomingArrayValue { items: &px }),
    ];
    let images = vec![IncomingValue::Struct(IncomingStructValue { fields: &fields })];
    let value = IncomingValue::Array(IncomingArrayValue { items: &images });
    assert_eq!(IconPixmap::map::<Vec<u8>>(value).unwrap_err(), DBusError::WrongValue);
}

#[test]
fn test_icon_pixmap_not_an_array() {
    assert_eq!(
        IconPixmap::map::<Vec<u8>>(IncomingValue::Int32(1)).unwrap_err(),
        DBusError::WrongValue
    );
}

#[test]
fn test_icon_name_map() {
    assert_eq!(IconName::map(IncomingValue::String("firefox")), Ok("firefox"));
    assert_eq!(IconName::map(IncomingValue::Bool(true)), Err(DBusError::WrongValue));
}

#[test]
fn test_icon_pixmap_encode_matches_get_property() {
    let mut a = [0u8; 512];
    let mut b = [0u8; 512];
    let n = IconPixmap::new(":1.7").encode(&mut a).unwrap();
    let m = lib::messages::org_freedesktop_dbus::GetProperty::encode(
        &mut b,
        ":1.7",
        "/StatusNotifierItem",
        "org.kde.StatusNotifierItem",
        "IconPixmap",
    )
    .unwrap();
    assert_eq!(&a[..n], &b[..m]);
}

/// One property entry `{sv}`.
fn prop<'a>(key: &'a IncomingValue<'a>, value: &'a IncomingValue<'a>) -> IncomingValue<'a> {
    IncomingValue::DictEntry(IncomingDictEntryValue { key, value })
}

#[test]
fn test_get_layout_reply_sections_and_nesting() {
    // root children: "Open", separator, hidden, "Sub" (submenu with "Leaf"), checkbox
    let k_label = IncomingValue::String("label");
    let k_type = IncomingValue::String("type");
    let k_visible = IncomingValue::String("visible");
    let k_display = IncomingValue::String("children-display");
    let k_toggle = IncomingValue::String("toggle-type");
    let k_state = IncomingValue::String("toggle-state");

    let v_open = IncomingValue::String("Open");
    let vv_open = IncomingValue::Variant(&v_open);
    let open_props = vec![prop(&k_label, &vv_open)];
    let no_children: Vec<IncomingValue> = vec![];
    let open_fields = vec![
        IncomingValue::Int32(1),
        IncomingValue::Array(IncomingArrayValue { items: &open_props }),
        IncomingValue::Array(IncomingArrayValue { items: &no_children }),
    ];
    let open = IncomingValue::Struct(IncomingStructValue { fields: &open_fields });

    let v_sep = IncomingValue::String("separator");
    let vv_sep = IncomingValue::Variant(&v_sep);
    let sep_props = vec![prop(&k_type, &vv_sep)];
    let sep_fields = vec![
        IncomingValue::Int32(2),
        IncomingValue::Array(IncomingArrayValue { items: &sep_props }),
        IncomingValue::Array(IncomingArrayValue { items: &no_children }),
    ];
    let sep = IncomingValue::Struct(IncomingStructValue { fields: &sep_fields });

    let v_false = IncomingValue::Bool(false);
    let vv_false = IncomingValue::Variant(&v_false);
    let hidden_props = vec![prop(&k_visible, &vv_false)];
    let hidden_fields = vec![
        IncomingValue::Int32(3),
        IncomingValue::Array(IncomingArrayValue { items: &hidden_props }),
        IncomingValue::Array(IncomingArrayValue { items: &no_children }),
    ];
    let hidden = IncomingValue::Struct(IncomingStructValue { fields: &hidden_fields });

    let v_leaf = IncomingValue::String("Leaf");
    let vv_leaf = IncomingValue::Variant(&v_leaf);
    let leaf_props = vec![prop(&k_label, &vv_leaf)];
    let leaf_fields = vec![
        IncomingValue::Int32(5),
        IncomingValue::Array(IncomingArrayValue { items: &leaf_props }),
        IncomingValue::Array(IncomingArrayValue { items: &no_children }),
    ];
    let leaf = IncomingValue::Struct(IncomingStructValue { fields: &leaf_fields });
    let sub_children = vec![IncomingValue::Variant(&leaf)];
    let v_sub = IncomingValue::String("Sub");
    let vv_sub = IncomingValue::Variant(&v_sub);
    let v_submenu = IncomingValue::String("submenu");
    let vv_submenu = IncomingValue::Variant(&v_submenu);
    let sub_props = vec![prop(&k_label, &vv_sub), prop(&k_display, &vv_submenu)];
    let sub_fields = vec![
        IncomingValue::Int32(4),
        IncomingValue::Array(IncomingArrayValue { items: &sub_props }),
        IncomingValue::Array(IncomingArrayValue { items: &sub_children }),
    ];
    let sub = IncomingValue::Struct(IncomingStructValue { fields: &sub_fields });

    let v_check = IncomingValue::String("Check");
    let vv_check = IncomingValue::Variant(&v_check);
    let v_checkmark = IncomingValue::String("checkmark");
    let vv_checkmark = IncomingValue::Variant(&v_checkmark);
    let v_one = IncomingValue::Int32(1);
    let vv_one = IncomingValue::Variant(&v_one);
    let check_props = vec![
        prop(&k_label, &vv_check),
        prop(&k_toggle, &vv_checkmark),
        prop(&k_state, &vv_one),
    ];
    let check_fields = vec![
        IncomingValue::Int32(6),
        IncomingValue::Array(IncomingArrayValue { items: &check_props }),
        IncomingValue::Array(IncomingArrayValue { items: &no_children }),
    ];
    let check = IncomingValue::Struct(IncomingStructValue { fields: &check_fields });

    let top = vec![
        IncomingValue::Variant(&open),
        IncomingValue::Variant(&sep),
        IncomingValue::Variant(&hidden),
        IncomingValue::Variant(&sub),
        IncomingValue::Variant(&check),
    ];
    let root_props: Vec<IncomingValue> = vec![];
    let root_fields = vec![
        IncomingValue::Int32(0),
        IncomingValue::Array(IncomingArrayValue { items: &root_props }),
        IncomingValue::Array(IncomingArrayValue { items: &top }),
    ];
    let values = [
        IncomingValue::UInt32(3),
        IncomingValue::Struct(IncomingStructValue { fields: &root_fields }),
    ];
    let helper = GetLayout::new(":1.9");
    let list = helper.handle_reply_body(IncomingBody { values: &values }).unwrap();

    let expected = GetLayoutList {
        items: vec![
            GetLayoutItem::Section {
                children: GetLayoutList {
                    items: vec![GetLayoutItem::Regular { id: 1, service: ":1.9", label: "Open" }],
                },
            },
            GetLayoutItem::Section {
                children: GetLayoutList {
                    items: vec![
                        GetLayoutItem::Nested {
                            id: 4,
                            service: ":1.9",
                            label: "Sub",
                            children: GetLayoutList {
                                items: vec![GetLayoutItem::Regular { id: 5, service: ":1.9", label: "Leaf" }],
                            },
                        },
                        GetLayoutItem::Checkbox { id: 6, service: ":1.9", label: "Check", checked: true },
                    ],
                },
            },
        ],
    };
    assert_eq!(list, expected);
}

#[test]
fn test_get_layout_single_batch_is_the_list() {
    let k_enabled = IncomingValue::String("enabled");
    let v_false = IncomingValue::Bool(false);
    let vv_false = IncomingValue::Variant(&v_false);
    let props = vec![prop(&k_enabled, &vv_false)];
    let none: Vec<IncomingValue> = vec![];
    let fields = vec![
        IncomingValue::Int32(8),
        IncomingValue::Array(IncomingArrayValue { items: &props }),
        IncomingValue::Array(IncomingArrayValue { items: &none }),
    ];
    let item = IncomingValue::Struct(IncomingStructValue { fields: &fields });
    let top = vec![IncomingValue::Variant(&item)];
    let root_fields = vec![
        IncomingValue::Int32(0),
        IncomingValue::Array(IncomingArrayValue { items: &none }),
        IncomingValue::Array(IncomingArrayValue { items: &top }),
    ];
    let values = [
        IncomingValue::UInt32(1),
        IncomingValue::Struct(IncomingStructValue { fields: &root_fields }),
    ];
    let helper = GetLayout::new("svc");
    let list = helper.handle_reply_body(IncomingBody { values: &values }).unwrap();
    assert_eq!(
        list,
        GetLayoutList { items: vec![GetLayoutItem::Disabled { id: 8, service: "svc", label: "" }] }
    );
}

#[test]
fn test_get_layout_label_cut_to_100_bytes() {
    let long = "x".repeat(130);
    let k_label = IncomingValue::String("label");
    let v_label = IncomingValue::String(&long);
    let vv_label = IncomingValue::Variant(&v_label);
    let props = vec![prop(&k_label, &vv_label)];
    let none: Vec<IncomingValue> = vec![];
    let fields = vec![
        IncomingValue::Int32(1),
        IncomingValue::Array(IncomingArrayValue { items: &props }),
        IncomingValue::Array(IncomingArrayValue { items: &none }),
    ];
    let item = IncomingValue::Struct(IncomingStructValue { fields: &fields });
    let top = vec![IncomingValue::Variant(&item)];
    let root_fields = vec![
        IncomingValue::Int32(0),
        IncomingValue::Array(IncomingArrayValue { items: &none }),
        IncomingValue::Array(IncomingArrayValue { items: &top }),
    ];
    let values = [
        IncomingValue::UInt32(1),
        IncomingValue::Struct(IncomingStructValue { fields: &root_fields }),
    ];
    let helper = GetLayout::new("svc");
    let list = helper.handle_reply_body(IncomingBody { values: &values }).unwrap();
    match &list.items[0] {
        GetLayoutItem::Regular { label, .. } => assert_eq!(label.len(), 100),
        other => panic!("unexpected {:?}", other),
    }
}

#[test]
fn test_get_layout_missing_root() {
    let values = [IncomingValue::UInt32(1)];
    let helper = GetLayout::new("svc");
    assert_eq!(
        helper.handle_reply_body(IncomingBody { values: &values }).unwrap_err(),
        DBusError::Other("invalid GetLayout response")
    );
}

#[test]
fn test_get_layout_item_not_a_variant() {
    let none: Vec<IncomingValue> = vec![];
    let top = vec![IncomingValue::Int32(1)];
    let root_fields = vec![
        IncomingValue::Int32(0),
        IncomingValue::Array(IncomingArrayValue { items: &none }),
        IncomingValue::Array(IncomingArrayValue { items: &top }),
    ];
    let values = [
        IncomingValue::UInt32(1),
        IncomingValue::Struct(IncomingStructValue { fields: &root_fields }),
    ];
    let helper = GetLayout::new("svc");
    assert_eq!(
        helper.handle_reply_body(IncomingBody { values: &values }).unwrap_err(),
        DBusError::WrongValue
    );
}

#[test]
fn test_get_layout_bad_property_type() {
    let k_label = IncomingValue::String("label");
    let v_label = IncomingValue::Int32(3);
    let vv_label = IncomingValue::Variant(&v_label);
    let props = vec![prop(&k_label, &vv_label)];
    let none: Vec<IncomingValue> = vec![];
    let fields = vec![
        IncomingValue::Int32(1),
        IncomingValue::Array(IncomingArrayValue { items: &props }),
        IncomingValue::Array(IncomingArrayValue { items: &none }),
    ];
    let item = IncomingValue::Struct(IncomingStructValue { fields: &fields });
    let top = vec![IncomingValue::Variant(&item)];
    let root_fields = vec![
        IncomingValue::Int32(0),
        IncomingValue::Array(IncomingArrayValue { items: &none }),
        IncomingValue::Array(IncomingArrayValue { items: &top }),
    ];
    let values = [
        IncomingValue::UInt32(1),
        IncomingValue::Struct(IncomingStructValue { fields: &root_fields }),
    ];
    let helper = GetLayout::new("svc");
    assert_eq!(
        helper.handle_reply_body(IncomingBody { values: &values }).unwrap_err(),
        DBusError::WrongValue
    );
}

fn leak<T>(t: T) -> &'static T {
    Box::leak(Box::new(t))
}

/// The values of the node that a menu writes for an item, as a reader receives them.
fn node(id: i32, props: Vec<(&'static str, IncomingValue<'static>)>, children: Vec<IncomingValue<'static>>) -> IncomingValue<'static> {
    let entries: Vec<IncomingValue<'static>> = props
        .into_iter()
        .map(|(k, v)| {
            IncomingValue::DictEntry(IncomingDictEntryValue {
                key: leak(IncomingValue::String(k)),
                value: leak(IncomingValue::Variant(leak(v))),
            })
        })
        .collect();
    let fields = leak(vec![
        IncomingValue::Int32(id),
        IncomingValue::Array(IncomingArrayValue { items: leak(entries) }),
        IncomingValue::Array(IncomingArrayValue { items: leak(children) }),
    ]);
    IncomingValue::Variant(leak(IncomingValue::Struct(IncomingStructValue { fields })))
}

#[test]
fn test_host_reads_client_menu() {
    // the menu [A, separator, Sub { B }, C (checkbox, disabled)] as its reply writes it
    let a = node(1, vec![("label", IncomingValue::String("A")), ("visible", IncomingValue::Bool(true)), ("enabled", IncomingValue::Bool(true))], vec![]);
    let sep = node(2, vec![("type", IncomingValue::String("separator")), ("visible", IncomingValue::Bool(true)), ("enabled", IncomingValue::Bool(false))], vec![]);
    let b = node(4, vec![("label", IncomingValue::String("B")), ("visible", IncomingValue::Bool(true)), ("enabled", IncomingValue::Bool(true))], vec![]);
    let sub = node(
        3,
        vec![
            ("label", IncomingValue::String("Sub")),
            ("children-display", IncomingValue::String("submenu")),
            ("visible", IncomingValue::Bool(true)),
            ("enabled", IncomingValue::Bool(true)),
        ],
        vec![b],
    );
    let c = node(
        5,
        vec![
            ("label", IncomingValue::String("C")),
            ("toggle-type", IncomingValue::String("checkmark")),
            ("toggle-state", IncomingValue::Int32(1)),
            ("visible", IncomingValue::Bool(true)),
            ("enabled", IncomingValue::Bool(false)),
        ],
        vec![],
    );
    let root_props = vec![IncomingValue::DictEntry(IncomingDictEntryValue {
        key: leak(IncomingValue::String("children-display")),
        value: leak(IncomingValue::Variant(leak(IncomingValue::String("submenu")))),
    })];
    let top = vec![a, sep, sub, c];
    let root_fields = vec![
        IncomingValue::Int32(0),
        IncomingValue::Array(IncomingArrayValue { items: &root_props }),
        IncomingValue::Array(IncomingArrayValue { items: &top }),
    ];
    let values = [IncomingValue::UInt32(7), IncomingValue::Struct(IncomingStructValue { fields: &root_fields })];
    let helper = GetLayout::new(":1.4");
    let list = helper.handle_reply_body(IncomingBody { values: &values }).unwrap();
    let expected = GetLayoutList {
        items: vec![
            GetLayoutItem::new_section(GetLayoutList { items: vec![GetLayoutItem::new_regular(1, ":1.4", "A")] }),
            GetLayoutItem::new_section(GetLayoutList {
                items: vec![
                    GetLayoutItem::new_nested(
                        3,
                        ":1.4",
                        "Sub",
                        GetLayoutList { items: vec![GetLayoutItem::new_regular(4, ":1.4", "B")] },
                    ),
                    GetLayoutItem::new_disabled(5, ":1.4", "C"),
                ],
            }),
        ],
    };
    assert_eq!(list, expected);
}

#[test]
fn test_layout_list_builders() {
    let mut list = GetLayoutList::new();
    assert!(list.is_empty());
    list.push(GetLayoutItem::new_checkbox(1, "s", "x", true));
    list.push(GetLayoutItem::new_radio(2, "s", "y", false));
    assert!(!list.is_empty());
    assert_eq!(list.items[1], GetLayoutItem::Radio { id: 2, service: "s", label: "y", selected: false });
}
