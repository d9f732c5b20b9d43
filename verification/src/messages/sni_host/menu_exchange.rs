//! What each side of a menu reads of what the other writes: a host of the
//! layout that a menu replies with, a menu of the calls that a host sends.
use super::event::{event_body, event_header};
use super::get_layout::{
    apply_prop, classify, close_batch, default_props, get_layout_body, get_layout_header, item_outcome,
    items_outcome, label_cut_panics, layout_reply, props_of, scan_items, shown_label, Entry, LayoutNode,
    LayoutProps, Outcome,
};
use crate::error::DBusError;
use crate::incoming::{
    carries, carries_message, carries_seq, lemma_carries_index, IncomingMessage, IncomingValue,
};
use crate::messages::sni_client::dbusmenu::get_layout::{
    layout_body, layout_item, layout_list, root_layout,
};
use crate::messages::sni_client::dbusmenu::item::{flag, item_properties};
use crate::messages::sni_client::dbusmenu::request::{menu_request, Request};
use crate::messages::sni_client::dbusmenu::{DBusMenuEventKind, DBusMenuItem};
use crate::wire::Wire;
use vstd::prelude::*;
use vstd::string::StringSliceAdditionalSpecFns;

verus! {

/// The properties that a host reads of a menu item.
pub open spec fn client_props(item: DBusMenuItem) -> LayoutProps {
    match item {
        DBusMenuItem::Regular { label, enabled, visible, .. } => LayoutProps {
            label: label.spec_bytes(),
            enabled,
            visible,
            ..default_props()
        },
        DBusMenuItem::Checkbox { label, checked, enabled, visible, .. } => LayoutProps {
            label: label.spec_bytes(),
            toggle_type: "checkmark".spec_bytes(),
            toggle_state: flag(checked),
            enabled,
            visible,
            ..default_props()
        },
        DBusMenuItem::Radio { label, selected, enabled, visible, .. } => LayoutProps {
            label: label.spec_bytes(),
            toggle_type: "radio".spec_bytes(),
            toggle_state: flag(selected),
            enabled,
            visible,
            ..default_props()
        },
        DBusMenuItem::Separator { visible, .. } => LayoutProps {
            type_: "separator".spec_bytes(),
            visible,
            enabled: false,
            ..default_props()
        },
        DBusMenuItem::Submenu { label, enabled, visible, .. } => LayoutProps {
            label: label.spec_bytes(),
            children_display: "submenu".spec_bytes(),
            enabled,
            visible,
            ..default_props()
        },
    }
}

/// `p` after a property entry as it is written.
pub open spec fn wire_apply(p: LayoutProps, w: Wire) -> Result<LayoutProps, DBusError> {
    match w {
        Wire::DictEntry(k, v) => match *k {
            Wire::Str(key) => match *v {
                Wire::Variant(_, x) => {
                    let x = *x;
                    if key == "type".spec_bytes() {
                        match x {
                            Wire::Str(s) => Ok(LayoutProps { type_: s, ..p }),
                            _ => Err(DBusError::WrongValue),
                        }
                    } else if key == "label".spec_bytes() {
                        match x {
                            Wire::Str(s) => Ok(LayoutProps { label: s, ..p }),
                            _ => Err(DBusError::WrongValue),
                        }
                    } else if key == "enabled".spec_bytes() {
                        match x {
                            Wire::Bool(b) => Ok(LayoutProps { enabled: b, ..p }),
                            _ => Err(DBusError::WrongValue),
                        }
                    } else if key == "visible".spec_bytes() {
                        match x {
                            Wire::Bool(b) => Ok(LayoutProps { visible: b, ..p }),
                            _ => Err(DBusError::WrongValue),
                        }
                    } else if key == "toggle-type".spec_bytes() {
                        match x {
                            Wire::Str(s) => Ok(LayoutProps { toggle_type: s, ..p }),
                            _ => Err(DBusError::WrongValue),
                        }
                    } else if key == "toggle-state".spec_bytes() {
                        match x {
                            Wire::Int32(i) => Ok(LayoutProps { toggle_state: i, ..p }),
                            _ => Err(DBusError::WrongValue),
                        }
                    } else if key == "children-display".spec_bytes() {
                        match x {
                            Wire::Str(s) => Ok(LayoutProps { children_display: s, ..p }),
                            _ => Err(DBusError::WrongValue),
                        }
                    } else {
                        Ok(p)
                    }
                },
                _ => Err(DBusError::WrongValue),
            },
            _ => Err(DBusError::WrongValue),
        },
        _ => Err(DBusError::WrongValue),
    }
}

/// The properties read from entries as they are written.
pub open spec fn props_of_wires(ws: Seq<Wire>) -> Result<LayoutProps, DBusError>
    decreases ws.len(),
{
    if ws.len() == 0 {
        Ok(default_props())
    } else {
        match props_of_wires(ws.drop_last()) {
            Ok(p) => wire_apply(p, ws.last()),
            Err(e) => Err(e),
        }
    }
}

/// Reading a carried property entry is reading the written one.
proof fn lemma_apply_carried(p: LayoutProps, v: IncomingValue, w: Wire)
    requires
        carries(v, w),
        w is DictEntry,
    ensures
        apply_prop(p, v) == wire_apply(p, w),
{
    match v {
        IncomingValue::DictEntry(d) => {
            let k = *w->DictEntry_0;
            let x = *w->DictEntry_1;
            assert(carries(*d.key, k));
            assert(carries(*d.value, x));
            match *d.key {
                IncomingValue::String(ks) => {
                    match *d.value {
                        IncomingValue::Variant(inner) => {
                            assert(carries(*inner, *x->Variant_1));
                            let xi = *x->Variant_1;
                            match *inner {
                                IncomingValue::String(vs) => assert(xi == Wire::Str(vs.spec_bytes())),
                                IncomingValue::Bool(b) => assert(xi == Wire::Bool(b)),
                                IncomingValue::Int32(i) => assert(xi == Wire::Int32(i)),
                                _ => {
                                    assert(!(xi is Str) && !(xi is Bool) && !(xi is Int32)) by {
                                        reveal_with_fuel(carries, 2);
                                    }
                                },
                            }
                        },
                        _ => {
                            assert(!(x is Variant)) by {
                                reveal_with_fuel(carries, 2);
                            }
                        },
                    }
                },
                _ => {
                    assert(!(k is Str)) by {
                        reveal_with_fuel(carries, 2);
                    }
                },
            }
        },
        _ => {},
    }
}

/// Reading carried property entries is reading the written ones.
proof fn lemma_props_carried(vs: Seq<IncomingValue>, ws: Seq<Wire>)
    requires
        carries_seq(vs, ws),
        forall|i: int| 0 <= i < ws.len() ==> #[trigger] ws[i] is DictEntry,
    ensures
        props_of(vs) == props_of_wires(ws),
    decreases vs.len(),
{
    if vs.len() > 0 {
        lemma_props_carried(vs.drop_last(), ws.drop_last());
        match props_of(vs.drop_last()) {
            Ok(p) => lemma_apply_carried(p, vs.last(), ws.last()),
            Err(_) => {},
        }
    }
}

/// The property names a host reads are distinct.
proof fn lemma_prop_keys()
    ensures
        "label".spec_bytes() != "type".spec_bytes(),
        "enabled".spec_bytes() != "type".spec_bytes(),
        "enabled".spec_bytes() != "label".spec_bytes(),
        "visible".spec_bytes() != "type".spec_bytes(),
        "visible".spec_bytes() != "label".spec_bytes(),
        "visible".spec_bytes() != "enabled".spec_bytes(),
        "toggle-type".spec_bytes() != "type".spec_bytes(),
        "toggle-type".spec_bytes() != "label".spec_bytes(),
        "toggle-type".spec_bytes() != "enabled".spec_bytes(),
        "toggle-type".spec_bytes() != "visible".spec_bytes(),
        "toggle-state".spec_bytes() != "type".spec_bytes(),
        "toggle-state".spec_bytes() != "label".spec_bytes(),
        "toggle-state".spec_bytes() != "enabled".spec_bytes(),
        "toggle-state".spec_bytes() != "visible".spec_bytes(),
        "toggle-state".spec_bytes() != "toggle-type".spec_bytes(),
        "children-display".spec_bytes() != "type".spec_bytes(),
        "children-display".spec_bytes() != "label".spec_bytes(),
        "children-display".spec_bytes() != "enabled".spec_bytes(),
        "children-display".spec_bytes() != "visible".spec_bytes(),
        "children-display".spec_bytes() != "toggle-type".spec_bytes(),
        "children-display".spec_bytes() != "toggle-state".spec_bytes(),
{
    reveal_strlit("type");
    reveal_strlit("label");
    reveal_strlit("enabled");
    reveal_strlit("visible");
    reveal_strlit("toggle-type");
    reveal_strlit("toggle-state");
    reveal_strlit("children-display");
    assert(vstd::string::is_ascii("type"));
    assert(vstd::string::is_ascii("label"));
    assert(vstd::string::is_ascii("enabled"));
    assert(vstd::string::is_ascii("visible"));
    assert(vstd::string::is_ascii("toggle-type"));
    assert(vstd::string::is_ascii("toggle-state"));
    assert(vstd::string::is_ascii("children-display"));
    vstd::string::is_ascii_spec_bytes("type");
    vstd::string::is_ascii_spec_bytes("label");
    vstd::string::is_ascii_spec_bytes("enabled");
    vstd::string::is_ascii_spec_bytes("visible");
    vstd::string::is_ascii_spec_bytes("toggle-type");
    vstd::string::is_ascii_spec_bytes("toggle-state");
    vstd::string::is_ascii_spec_bytes("children-display");
    assert("visible".spec_bytes()[0] != "enabled".spec_bytes()[0]);
}

/// What a host reads of the properties that describe an item: the
/// properties of `client_props`.
proof fn lemma_client_props(item: DBusMenuItem)
    ensures
        props_of_wires(item_properties(item)) == Ok::<LayoutProps, DBusError>(client_props(item)),
        forall|i: int| 0 <= i < item_properties(item).len() ==> #[trigger] item_properties(item)[i] is DictEntry,
{
    match item {
        DBusMenuItem::Regular { .. } => lemma_regular_props(item),
        DBusMenuItem::Checkbox { .. } => lemma_toggle_props(item),
        DBusMenuItem::Radio { .. } => lemma_toggle_props(item),
        DBusMenuItem::Separator { .. } => lemma_separator_props(item),
        DBusMenuItem::Submenu { .. } => lemma_submenu_props(item),
    }
}

/// `lemma_client_props` for regular items.
proof fn lemma_regular_props(item: DBusMenuItem)
    requires
        item is Regular,
    ensures
        props_of_wires(item_properties(item)) == Ok::<LayoutProps, DBusError>(client_props(item)),
        forall|i: int| 0 <= i < item_properties(item).len() ==> #[trigger] item_properties(item)[i] is DictEntry,
{
    lemma_prop_keys();
    let ws = item_properties(item);
    let d = default_props();
    assert(ws.subrange(0, 0) =~= Seq::<Wire>::empty());
    assert(ws.subrange(0, ws.len() as int) =~= ws);
    lemma_props_step(ws, 0);
    lemma_props_step(ws, 1);
    lemma_props_step(ws, 2);
    let l = item->Regular_label.spec_bytes();
    let visible = item->Regular_visible;
    assert(props_of_wires(ws.subrange(0, 1)) == Ok::<LayoutProps, DBusError>(LayoutProps { label: l, ..d }));
    assert(props_of_wires(ws.subrange(0, 2)) == Ok::<LayoutProps, DBusError>(LayoutProps { label: l, visible, ..d }));
}

/// `lemma_client_props` for checkboxes and radio items.
proof fn lemma_toggle_props(item: DBusMenuItem)
    requires
        item is Checkbox || item is Radio,
    ensures
        props_of_wires(item_properties(item)) == Ok::<LayoutProps, DBusError>(client_props(item)),
        forall|i: int| 0 <= i < item_properties(item).len() ==> #[trigger] item_properties(item)[i] is DictEntry,
{
    lemma_prop_keys();
    let ws = item_properties(item);
    let d = default_props();
    assert(ws.subrange(0, 0) =~= Seq::<Wire>::empty());
    assert(ws.subrange(0, ws.len() as int) =~= ws);
    lemma_props_step(ws, 0);
    lemma_props_step(ws, 1);
    lemma_props_step(ws, 2);
    lemma_props_step(ws, 3);
    lemma_props_step(ws, 4);
    let (l, t, on, visible) = match item {
        DBusMenuItem::Checkbox { label, checked, visible, .. } => (label.spec_bytes(), "checkmark".spec_bytes(), checked, visible),
        DBusMenuItem::Radio { label, selected, visible, .. } => (label.spec_bytes(), "radio".spec_bytes(), selected, visible),
        _ => (Seq::empty(), Seq::empty(), false, false),
    };
    assert(props_of_wires(ws.subrange(0, 1)) == Ok::<LayoutProps, DBusError>(LayoutProps { label: l, ..d }));
    assert(props_of_wires(ws.subrange(0, 2)) == Ok::<LayoutProps, DBusError>(LayoutProps { label: l, toggle_type: t, ..d }));
    assert(props_of_wires(ws.subrange(0, 3)) == Ok::<LayoutProps, DBusError>(
        LayoutProps { label: l, toggle_type: t, toggle_state: flag(on), ..d },
    ));
    assert(props_of_wires(ws.subrange(0, 4)) == Ok::<LayoutProps, DBusError>(
        LayoutProps { label: l, toggle_type: t, toggle_state: flag(on), visible, ..d },
    ));
}

/// `lemma_client_props` for separators.
proof fn lemma_separator_props(item: DBusMenuItem)
    requires
        item is Separator,
    ensures
        props_of_wires(item_properties(item)) == Ok::<LayoutProps, DBusError>(client_props(item)),
        forall|i: int| 0 <= i < item_properties(item).len() ==> #[trigger] item_properties(item)[i] is DictEntry,
{
    lemma_prop_keys();
    let ws = item_properties(item);
    let d = default_props();
    assert(ws.subrange(0, 0) =~= Seq::<Wire>::empty());
    assert(ws.subrange(0, ws.len() as int) =~= ws);
    lemma_props_step(ws, 0);
    lemma_props_step(ws, 1);
    lemma_props_step(ws, 2);
    let t = "separator".spec_bytes();
    let visible = item->Separator_visible;
    assert(props_of_wires(ws.subrange(0, 1)) == Ok::<LayoutProps, DBusError>(LayoutProps { type_: t, ..d }));
    assert(props_of_wires(ws.subrange(0, 2)) == Ok::<LayoutProps, DBusError>(LayoutProps { type_: t, visible, ..d }));
}

/// `lemma_client_props` for sub-menus.
proof fn lemma_submenu_props(item: DBusMenuItem)
    requires
        item is Submenu,
    ensures
        props_of_wires(item_properties(item)) == Ok::<LayoutProps, DBusError>(client_props(item)),
        forall|i: int| 0 <= i < item_properties(item).len() ==> #[trigger] item_properties(item)[i] is DictEntry,
{
    lemma_prop_keys();
    let ws = item_properties(item);
    let d = default_props();
    assert(ws.subrange(0, 0) =~= Seq::<Wire>::empty());
    assert(ws.subrange(0, ws.len() as int) =~= ws);
    lemma_props_step(ws, 0);
    lemma_props_step(ws, 1);
    lemma_props_step(ws, 2);
    lemma_props_step(ws, 3);
    let l = item->Submenu_label.spec_bytes();
    let c = "submenu".spec_bytes();
    let visible = item->Submenu_visible;
    assert(props_of_wires(ws.subrange(0, 1)) == Ok::<LayoutProps, DBusError>(LayoutProps { label: l, ..d }));
    assert(props_of_wires(ws.subrange(0, 2)) == Ok::<LayoutProps, DBusError>(
        LayoutProps { label: l, children_display: c, ..d },
    ));
    assert(props_of_wires(ws.subrange(0, 3)) == Ok::<LayoutProps, DBusError>(
        LayoutProps { label: l, children_display: c, visible, ..d },
    ));
}

/// Reading the first `i + 1` written entries.
proof fn lemma_props_step(ws: Seq<Wire>, i: int)
    requires
        0 <= i < ws.len(),
    ensures
        props_of_wires(ws.subrange(0, i + 1)) == match props_of_wires(ws.subrange(0, i)) {
            Ok(p) => wire_apply(p, ws[i]),
            Err(e) => Err(e),
        },
{
    assert(ws.subrange(0, i + 1).drop_last() =~= ws.subrange(0, i));
}

/// What a host makes of `item` of the menu of `service`: its entry, with the
/// entries of a sub-menu's children.
pub open spec fn client_entry(service: Seq<u8>, item: DBusMenuItem) -> Entry
    decreases item, 0nat,
{
    let children = match item {
        DBusMenuItem::Submenu { children, .. } => client_nodes(service, children.items@),
        _ => Seq::empty(),
    };
    classify(item.spec_id(), service, client_props(item), children)
}

/// The entries so far and the batch since the last separator, after the
/// host has read `items`.
pub open spec fn client_scan(service: Seq<u8>, items: Seq<DBusMenuItem>) -> (Seq<LayoutNode>, Seq<LayoutNode>)
    decreases items, 0nat,
{
    if items.len() == 0 {
        (Seq::empty(), Seq::empty())
    } else {
        let (out, batch) = client_scan(service, items.subrange(0, items.len() - 1));
        match client_entry(service, items[items.len() - 1]) {
            Entry::Skip => (out, batch),
            Entry::Node(n) => (out, batch.push(n)),
            Entry::Separator => (out.push(LayoutNode::Section { children: batch }), Seq::empty()),
        }
    }
}

/// The menu that a host shows for the items `items` of the menu of
/// `service`: hidden items are left out, the visible items between
/// separators form sections, sub-menus nest.
pub open spec fn client_nodes(service: Seq<u8>, items: Seq<DBusMenuItem>) -> Seq<LayoutNode>
    decreases items, 1nat,
{
    let (out, batch) = client_scan(service, items);
    close_batch(out, batch)
}

/// Whether every label of `items` and of their sub-menus can be cut to 100
/// bytes without splitting a character.
pub open spec fn labels_cut_safely(items: Seq<DBusMenuItem>) -> bool
    decreases items, 1nat,
{
    items.len() == 0 || (labels_cut_safely(items.subrange(0, items.len() - 1)) && label_cut_safely(
        items[items.len() - 1],
    ))
}

/// Whether the label of `item`, and those below it, can be cut safely.
pub open spec fn label_cut_safely(item: DBusMenuItem) -> bool
    decreases item, 0nat,
{
    match item {
        DBusMenuItem::Regular { label, .. } => !label_cut_panics(label.spec_bytes()),
        DBusMenuItem::Checkbox { label, .. } => !label_cut_panics(label.spec_bytes()),
        DBusMenuItem::Radio { label, .. } => !label_cut_panics(label.spec_bytes()),
        DBusMenuItem::Separator { .. } => true,
        DBusMenuItem::Submenu { label, children, .. } => !label_cut_panics(label.spec_bytes())
            && labels_cut_safely(children.items@),
    }
}

/// The node that a menu's reply writes for `item`, inside its variant.
pub open spec fn node_wire(item: DBusMenuItem) -> Wire {
    *layout_item(item, -1i32)->Variant_1
}

/// A host reading the node written for `item` gets the entry `client_entry`.
proof fn lemma_item_read(service: Seq<u8>, item: DBusMenuItem, v: IncomingValue)
    requires
        carries(v, node_wire(item)),
        label_cut_safely(item),
    ensures
        item_outcome(service, v) == Outcome::Done(client_entry(service, item)),
    decreases item,
{
    let kids = match item {
        DBusMenuItem::Submenu { children, .. } => layout_list(children.items@, -1i32),
        _ => Seq::empty(),
    };
    let fields = seq![Wire::Int32(item.spec_id()), Wire::Array(8, item_properties(item)), Wire::Array(1, kids)];
    assert(node_wire(item) == Wire::Struct(fields));
    let f = v->Struct_0.fields@;
    assert(carries_seq(f, fields));
    lemma_carries_index(f, fields, 0);
    lemma_carries_index(f, fields, 1);
    lemma_carries_index(f, fields, 2);
    assert(f[0] == IncomingValue::Int32(item.spec_id()));
    let pa = f[1]->Array_0;
    let ca = f[2]->Array_0;
    assert(carries_seq(pa.items@, item_properties(item)));
    assert(carries_seq(ca.items@, kids));
    lemma_client_props(item);
    lemma_props_carried(pa.items@, item_properties(item));
    let children = match item {
        DBusMenuItem::Submenu { children, .. } => client_nodes(service, children.items@),
        _ => Seq::empty(),
    };
    match item {
        DBusMenuItem::Submenu { children, .. } => {
            lemma_items_read(service, children.items@, ca.items@);
        },
        _ => {
            assert(ca.items@.len() == 0);
            assert(scan_items(service, ca.items@) == Outcome::Done(
                (Seq::<LayoutNode>::empty(), Seq::<LayoutNode>::empty()),
            ));
        },
    }
    assert(items_outcome(service, ca.items@) == Outcome::Done(children));
    assert(!label_cut_panics(client_props(item).label));
}

/// A host reading the nodes written for `items` gets `client_scan`.
proof fn lemma_items_read(service: Seq<u8>, items: Seq<DBusMenuItem>, vals: Seq<IncomingValue>)
    requires
        carries_seq(vals, layout_list(items, -1i32)),
        labels_cut_safely(items),
    ensures
        scan_items(service, vals) == Outcome::Done(client_scan(service, items)),
    decreases items,
{
    if items.len() > 0 {
        let n = items.len();
        let prefix = items.subrange(0, n - 1);
        let last = items[n - 1];
        let ws = layout_list(items, -1i32);
        assert(ws == layout_list(prefix, -1i32).push(layout_item(last, -1i32)));
        assert(ws.drop_last() =~= layout_list(prefix, -1i32));
        assert(vals.drop_last() == vals.subrange(0, vals.len() - 1));
        lemma_items_read(service, prefix, vals.drop_last());
        let x = vals.last();
        assert(carries(x, layout_item(last, -1i32)));
        let inner = *x->Variant_0;
        assert(carries(inner, node_wire(last)));
        assert(decreases_to!(items => last));
        lemma_item_read(service, last, inner);
    }
}

/// A host that reads the reply a menu gives to `GetLayout(0, -1)` (the
/// whole menu) gets back the menu as `client_nodes` describes it: the
/// visible items, in sections between separators, sub-menus nested. This
/// holds when every label can be cut to 100 bytes without splitting a
/// character (else the reading panics).
pub proof fn lemma_host_reads_menu_layout(
    service: Seq<u8>,
    values: Seq<IncomingValue>,
    revision: u32,
    menu: Seq<DBusMenuItem>,
)
    requires
        carries_seq(values, layout_body(revision, menu, 0, -1i32)),
        labels_cut_safely(menu),
    ensures
        layout_reply(service, values) == Outcome::Done(client_nodes(service, menu)),
{
    let body = layout_body(revision, menu, 0, -1i32);
    let root = root_layout(menu, -1i32);
    assert(body == seq![Wire::UInt32(revision), root]);
    assert(values.len() == 2);
    lemma_carries_index(values, body, 1);
    let fields = root->Struct_0;
    assert(fields.len() == 3);
    assert(fields[2] == Wire::Array(1, layout_list(menu, -1i32)));
    assert(carries(values[1], root));
    let f = values[1]->Struct_0.fields@;
    assert(carries_seq(f, fields));
    lemma_carries_index(f, fields, 2);
    let a = f[2]->Array_0;
    assert(carries_seq(a.items@, layout_list(menu, -1i32)));
    lemma_items_read(service, menu, a.items@);
    assert(items_outcome(service, a.items@) == Outcome::Done(client_nodes(service, menu)));
}

/// The names that tell a menu's calls apart are distinct.
proof fn lemma_menu_call_names()
    ensures
        "com.canonical.dbusmenu".spec_bytes() != "org.freedesktop.DBus.Properties".spec_bytes(),
        "GetLayout".spec_bytes() != "GetAll".spec_bytes(),
        "GetLayout".spec_bytes() != "Get".spec_bytes(),
        "Event".spec_bytes() != "GetAll".spec_bytes(),
        "Event".spec_bytes() != "Get".spec_bytes(),
        "Event".spec_bytes() != "GetLayout".spec_bytes(),
        "Event".spec_bytes() != "GetGroupProperties".spec_bytes(),
        "Event".spec_bytes() != "AboutToShow".spec_bytes(),
        "Event".spec_bytes() != "AboutToShowGroup".spec_bytes(),
{
    reveal_strlit("com.canonical.dbusmenu");
    reveal_strlit("org.freedesktop.DBus.Properties");
    reveal_strlit("GetLayout");
    reveal_strlit("GetAll");
    reveal_strlit("Get");
    reveal_strlit("Event");
    reveal_strlit("GetGroupProperties");
    reveal_strlit("AboutToShow");
    reveal_strlit("AboutToShowGroup");
    assert(vstd::string::is_ascii("com.canonical.dbusmenu"));
    assert(vstd::string::is_ascii("org.freedesktop.DBus.Properties"));
    assert(vstd::string::is_ascii("GetLayout"));
    assert(vstd::string::is_ascii("GetAll"));
    assert(vstd::string::is_ascii("Get"));
    assert(vstd::string::is_ascii("Event"));
    assert(vstd::string::is_ascii("GetGroupProperties"));
    assert(vstd::string::is_ascii("AboutToShow"));
    assert(vstd::string::is_ascii("AboutToShowGroup"));
    vstd::string::is_ascii_spec_bytes("com.canonical.dbusmenu");
    vstd::string::is_ascii_spec_bytes("org.freedesktop.DBus.Properties");
    vstd::string::is_ascii_spec_bytes("GetLayout");
    vstd::string::is_ascii_spec_bytes("GetAll");
    vstd::string::is_ascii_spec_bytes("Get");
    vstd::string::is_ascii_spec_bytes("Event");
    vstd::string::is_ascii_spec_bytes("GetGroupProperties");
    vstd::string::is_ascii_spec_bytes("AboutToShow");
    vstd::string::is_ascii_spec_bytes("AboutToShowGroup");
}

/// A menu known as `destination` at `path` that reads the `GetLayout` call
/// a host sends it takes it as a request for the whole menu: from the root,
/// to any depth.
pub proof fn lemma_menu_reads_host_get_layout(m: IncomingMessage, destination: &str, path: &str)
    requires
        carries_message(m, get_layout_header(destination.spec_bytes(), path.spec_bytes()), get_layout_body()),
    ensures
        menu_request(m, destination, path) matches Ok(Some(Request::GetLayout { parent, depth })) && parent == 0
            && depth == -1,
{
    lemma_menu_call_names();
    let vals = m.body->Some_0.values@;
    lemma_carries_index(vals, get_layout_body(), 0);
    lemma_carries_index(vals, get_layout_body(), 1);
    lemma_carries_index(vals, get_layout_body(), 2);
}

/// A menu known as `destination` at `path` that reads the `Event` call a
/// host sends for item `id` at `timestamp` gets a click on that item at
/// that time.
pub proof fn lemma_menu_reads_host_event(m: IncomingMessage, destination: &str, path: &str, id: i32, timestamp: u32)
    requires
        carries_message(m, event_header(destination.spec_bytes(), path.spec_bytes()), event_body(id, timestamp)),
    ensures
        menu_request(m, destination, path) matches Ok(Some(Request::Event { event })) && event.id == id
            && event.kind == DBusMenuEventKind::Clicked && event.timestamp == timestamp,
{
    lemma_menu_call_names();
    let vals = m.body->Some_0.values@;
    lemma_carries_index(vals, event_body(id, timestamp), 0);
    lemma_carries_index(vals, event_body(id, timestamp), 1);
    lemma_carries_index(vals, event_body(id, timestamp), 2);
    lemma_carries_index(vals, event_body(id, timestamp), 3);
}

/// A host shows each item of a menu as what it is: a hidden item not at all;
/// a visible sub-menu as a nested entry holding what the host shows of its
/// children; a visible separator as a separator; a visible, disabled item as
/// a disabled entry; a visible, enabled radio item as a radio entry with the
/// item's selection, a checkbox as a checkbox entry with the item's check,
/// and a regular item as a regular entry. Entries keep the item's id and its
/// label cut to 100 bytes.
pub proof fn lemma_host_reads_item_kinds(service: Seq<u8>, item: DBusMenuItem)
    ensures
        item matches DBusMenuItem::Radio { id, label, selected, enabled: true, visible: true }
            ==> client_entry(service, item) == Entry::Node(
            LayoutNode::Radio { selected, id, label: shown_label(label.spec_bytes()), service },
        ),
        item matches DBusMenuItem::Checkbox { id, label, checked, enabled: true, visible: true }
            ==> client_entry(service, item) == Entry::Node(
            LayoutNode::Checkbox { checked, id, label: shown_label(label.spec_bytes()), service },
        ),
        item matches DBusMenuItem::Regular { id, label, enabled: true, visible: true }
            ==> client_entry(service, item) == Entry::Node(
            LayoutNode::Regular { id, label: shown_label(label.spec_bytes()), service },
        ),
        item matches DBusMenuItem::Regular { id, label, enabled: false, visible: true }
            ==> client_entry(service, item) == Entry::Node(
            LayoutNode::Disabled { id, label: shown_label(label.spec_bytes()), service },
        ),
        item matches DBusMenuItem::Checkbox { id, label, enabled: false, visible: true, .. }
            ==> client_entry(service, item) == Entry::Node(
            LayoutNode::Disabled { id, label: shown_label(label.spec_bytes()), service },
        ),
        item matches DBusMenuItem::Radio { id, label, enabled: false, visible: true, .. }
            ==> client_entry(service, item) == Entry::Node(
            LayoutNode::Disabled { id, label: shown_label(label.spec_bytes()), service },
        ),
        item matches DBusMenuItem::Separator { visible: true, .. } ==> client_entry(service, item)
            == Entry::Separator,
        item matches DBusMenuItem::Submenu { id, label, children, visible: true, .. }
            ==> client_entry(service, item) == Entry::Node(
            LayoutNode::Nested {
                children: client_nodes(service, children.items@),
                id,
                label: shown_label(label.spec_bytes()),
                service,
            },
        ),
        !item_visible(item) ==> client_entry(service, item) == Entry::Skip,
{
    reveal_strlit("checkmark");
    reveal_strlit("radio");
    reveal_strlit("submenu");
    reveal_strlit("separator");
    reveal_strlit("standard");
    assert(vstd::string::is_ascii("checkmark"));
    assert(vstd::string::is_ascii("radio"));
    assert(vstd::string::is_ascii("submenu"));
    assert(vstd::string::is_ascii("separator"));
    assert(vstd::string::is_ascii("standard"));
    vstd::string::is_ascii_spec_bytes("checkmark");
    vstd::string::is_ascii_spec_bytes("radio");
    vstd::string::is_ascii_spec_bytes("submenu");
    vstd::string::is_ascii_spec_bytes("separator");
    vstd::string::is_ascii_spec_bytes("standard");
    assert("submenu".spec_bytes().len() != 0);
    assert("checkmark".spec_bytes().len() != "radio".spec_bytes().len());
    assert("separator".spec_bytes().len() != "standard".spec_bytes().len());
}

/// Whether the menu shows `item`.
pub open spec fn item_visible(item: DBusMenuItem) -> bool {
    match item {
        DBusMenuItem::Regular { visible, .. } => visible,
        DBusMenuItem::Checkbox { visible, .. } => visible,
        DBusMenuItem::Radio { visible, .. } => visible,
        DBusMenuItem::Separator { visible, .. } => visible,
        DBusMenuItem::Submenu { visible, .. } => visible,
    }
}

} // verus!
