//! Menu items of a `com.canonical.dbusmenu` object and their properties.
use crate::encoder::{
    array_head, begin_array, end_array_of, lemma_array_empty, lemma_array_push,
    lemma_dict_entry, put_bool, put_i32, put_pad, put_sig, put_str,
};
use crate::wire::{dict_entry, marshal, marshal_seq, Wire};
use vstd::prelude::*;
use vstd::string::StringSliceAdditionalSpecFns;

verus! {

/// A list of dbusmenu items
#[derive(Debug, PartialEq, Eq)]
pub struct DBusMenuList<'a> {
    /// The items, in display order
    pub items: Vec<DBusMenuItem<'a>>,
}

/// A dbusmenu item
#[derive(Debug, PartialEq, Eq)]
pub enum DBusMenuItem<'a> {
    /// A simple clickable item
    Regular {
        /// Stable item id within this menu
        id: i32,
        /// User-visible label
        label: &'a str,
        /// Whether the item is enabled
        enabled: bool,
        /// Whether the item is visible
        visible: bool,
    },
    /// A checkbox item
    Checkbox {
        /// Stable item id within this menu
        id: i32,
        /// User-visible label
        label: &'a str,
        /// Whether the checkbox is checked
        checked: bool,
        /// Whether the item is enabled
        enabled: bool,
        /// Whether the item is visible
        visible: bool,
    },
    /// A radio item
    Radio {
        /// Stable item id within this menu
        id: i32,
        /// User-visible label
        label: &'a str,
        /// Whether the radio item is selected
        selected: bool,
        /// Whether the item is enabled
        enabled: bool,
        /// Whether the item is visible
        visible: bool,
    },
    /// A visual separator between groups of items
    Separator {
        /// Stable item id within this menu
        id: i32,
        /// Whether the item is visible
        visible: bool,
    },
    /// An item that opens a submenu
    Submenu {
        /// Stable item id within this menu
        id: i32,
        /// User-visible label
        label: &'a str,
        /// Whether the item is enabled
        enabled: bool,
        /// Whether the item is visible
        visible: bool,
        /// Child menu item list
        children: DBusMenuList<'a>,
    },
}

/// A string property `{sv}`.
pub open spec fn str_prop(name: Seq<u8>, value: Seq<u8>) -> Wire {
    dict_entry(name, "s".spec_bytes(), Wire::Str(value))
}

/// A boolean property `{sv}`.
pub open spec fn bool_prop(name: Seq<u8>, value: bool) -> Wire {
    dict_entry(name, "b".spec_bytes(), Wire::Bool(value))
}

/// An `i32` property `{sv}`.
pub open spec fn i32_prop(name: Seq<u8>, value: i32) -> Wire {
    dict_entry(name, "i".spec_bytes(), Wire::Int32(value))
}

/// 1 for true, 0 for false.
pub open spec fn flag(b: bool) -> i32 {
    if b {
        1
    } else {
        0
    }
}

/// The properties that describe an item to a host.
pub open spec fn item_properties(item: DBusMenuItem) -> Seq<Wire> {
    match item {
        DBusMenuItem::Regular { label, enabled, visible, .. } => plain_properties(
            label.spec_bytes(),
            None,
            visible,
            enabled,
        ),
        DBusMenuItem::Checkbox { label, checked, enabled, visible, .. } => plain_properties(
            label.spec_bytes(),
            Some(("checkmark".spec_bytes(), checked)),
            visible,
            enabled,
        ),
        DBusMenuItem::Radio { label, selected, enabled, visible, .. } => plain_properties(
            label.spec_bytes(),
            Some(("radio".spec_bytes(), selected)),
            visible,
            enabled,
        ),
        DBusMenuItem::Separator { visible, .. } => seq![
            str_prop("type".spec_bytes(), "separator".spec_bytes()),
            bool_prop("visible".spec_bytes(), visible),
            bool_prop("enabled".spec_bytes(), false),
        ],
        DBusMenuItem::Submenu { label, enabled, visible, .. } => seq![
            str_prop("label".spec_bytes(), label.spec_bytes()),
            str_prop("children-display".spec_bytes(), "submenu".spec_bytes()),
            bool_prop("visible".spec_bytes(), visible),
            bool_prop("enabled".spec_bytes(), enabled),
        ],
    }
}

/// The first item with id `id` in `items`, searching each item before its
/// children and its children before its next sibling.
pub open spec fn find_in_items<'a>(items: Seq<DBusMenuItem<'a>>, id: i32) -> Option<DBusMenuItem<'a>>
    decreases items,
{
    if items.len() == 0 {
        None
    } else {
        let first = items[0];
        if first.spec_id() == id {
            Some(first)
        } else {
            let rest = find_in_items(items.subrange(1, items.len() as int), id);
            match first {
                DBusMenuItem::Submenu { children, .. } => {
                    match find_in_items(children.items@, id) {
                        Some(x) => Some(x),
                        None => rest,
                    }
                },
                _ => rest,
            }
        }
    }
}

impl<'a> DBusMenuItem<'a> {
    /// The item's id.
    pub open spec fn spec_id(&self) -> i32 {
        match self {
            DBusMenuItem::Regular { id, .. } => *id,
            DBusMenuItem::Checkbox { id, .. } => *id,
            DBusMenuItem::Radio { id, .. } => *id,
            DBusMenuItem::Separator { id, .. } => *id,
            DBusMenuItem::Submenu { id, .. } => *id,
        }
    }

    /// The item's id.
    pub fn id(&self) -> (r: i32)
        ensures
            r == self.spec_id(),
    {
        match self {
            DBusMenuItem::Regular { id, .. } => *id,
            DBusMenuItem::Checkbox { id, .. } => *id,
            DBusMenuItem::Radio { id, .. } => *id,
            DBusMenuItem::Separator { id, .. } => *id,
            DBusMenuItem::Submenu { id, .. } => *id,
        }
    }

    /// Writes the item's properties into the array started at `start`.
    fn encode_properties(&self, body: &mut Vec<u8>, Ghost(pre): Ghost<Seq<u8>>, Ghost(start): Ghost<nat>)
        requires
            start == pre.len() + array_head(pre.len(), 8).len(),
            old(body)@ == pre + array_head(pre.len(), 8) + marshal_seq(start, Seq::<Wire>::empty()),
        ensures
            final(body)@ == pre + array_head(pre.len(), 8) + marshal_seq(start, item_properties(*self)),
    {
        let ghost props = item_properties(*self);
        let ghost elems: Seq<Wire> = Seq::empty();
        match self {
            DBusMenuItem::Regular { label, visible, enabled, .. } => {
                encode_plain(body, label, None, None, *visible, *enabled, Ghost(pre), Ghost(start));
            },
            DBusMenuItem::Checkbox { label, checked, visible, enabled, .. } => {
                encode_plain(body, label, Some("checkmark"), Some(*checked), *visible, *enabled, Ghost(pre), Ghost(start));
            },
            DBusMenuItem::Radio { label, selected, visible, enabled, .. } => {
                encode_plain(body, label, Some("radio"), Some(*selected), *visible, *enabled, Ghost(pre), Ghost(start));
            },
            DBusMenuItem::Separator { visible, .. } => {
                push_property_str(body, "type", "separator", Ghost(pre), Ghost(start), Ghost(elems));
                proof { elems = elems.push(str_prop("type".spec_bytes(), "separator".spec_bytes())); }
                push_property_bool(body, "visible", *visible, Ghost(pre), Ghost(start), Ghost(elems));
                proof { elems = elems.push(bool_prop("visible".spec_bytes(), *visible)); }
                push_property_bool(body, "enabled", false, Ghost(pre), Ghost(start), Ghost(elems));
                proof {
                    elems = elems.push(bool_prop("enabled".spec_bytes(), false));
                    assert(elems =~= props);
                }
            },
            DBusMenuItem::Submenu { label, visible, enabled, .. } => {
                push_property_str(body, "label", label, Ghost(pre), Ghost(start), Ghost(elems));
                proof { elems = elems.push(str_prop("label".spec_bytes(), label.spec_bytes())); }
                push_property_str(body, "children-display", "submenu", Ghost(pre), Ghost(start), Ghost(elems));
                proof { elems = elems.push(str_prop("children-display".spec_bytes(), "submenu".spec_bytes())); }
                push_property_bool(body, "visible", *visible, Ghost(pre), Ghost(start), Ghost(elems));
                proof { elems = elems.push(bool_prop("visible".spec_bytes(), *visible)); }
                push_property_bool(body, "enabled", *enabled, Ghost(pre), Ghost(start), Ghost(elems));
                proof {
                    elems = elems.push(bool_prop("enabled".spec_bytes(), *enabled));
                    assert(elems =~= props);
                }
            },
        }
    }

    /// Appends the item's properties, an array `a{sv}`.
    pub fn encode(&self, body: &mut Vec<u8>)
        ensures
            final(body)@ == old(body)@ + marshal(
                old(body)@.len(),
                Wire::Array(8, item_properties(*self)),
            ),
    {
        let ghost pre = body@;
        let mark = begin_array(body, 8);
        let ghost start: nat = mark.start as nat;
        let ghost props = item_properties(*self);
        proof {
            lemma_array_empty(pre, 8);
        }
        self.encode_properties(body, Ghost(pre), Ghost(start));
        end_array_of(body, mark, Ghost(pre), Ghost(8), Ghost(props));
    }

    /// The first item with id `id` in `list` or below it.
    pub fn find_in<'b>(list: &'b DBusMenuList<'a>, id: i32) -> (r: Option<&'b DBusMenuItem<'a>>)
        ensures
            match r {
                Some(x) => find_in_items(list.items@, id) == Some(*x),
                None => find_in_items(list.items@, id) is None,
            },
        decreases list.items@,
    {
        let n = list.items.len();
        let mut i: usize = 0;
        assert(list.items@.subrange(0, n as int) =~= list.items@);
        while i < n
            invariant
                n == list.items@.len(),
                i <= n,
                find_in_items(list.items@, id) == find_in_items(list.items@.subrange(i as int, n as int), id),
            decreases n - i,
        {
            let item = &list.items[i];
            proof {
                let s = list.items@.subrange(i as int, n as int);
                assert(s[0] == list.items@[i as int]);
                assert(s.subrange(1, s.len() as int) =~= list.items@.subrange(i + 1, n as int));
            }
            if item.id() == id {
                return Some(item);
            }
            if let DBusMenuItem::Submenu { children, .. } = item {
                proof {
                    assert(decreases_to!(list.items@ => list.items@[i as int]));
                }
                if let Some(x) = Self::find_in(children, id) {
                    return Some(x);
                }
            }
            i = i + 1;
        }
        proof {
            assert(list.items@.subrange(n as int, n as int).len() == 0);
        }
        None
    }
}

/// The properties of a regular, checkbox or radio item: a toggle type and state for the latter two.
pub open spec fn plain_properties(label: Seq<u8>, toggle: Option<(Seq<u8>, bool)>, visible: bool, enabled: bool) -> Seq<Wire> {
    match toggle {
        None => seq![
            str_prop("label".spec_bytes(), label),
            bool_prop("visible".spec_bytes(), visible),
            bool_prop("enabled".spec_bytes(), enabled),
        ],
        Some((kind, on)) => seq![
            str_prop("label".spec_bytes(), label),
            str_prop("toggle-type".spec_bytes(), kind),
            i32_prop("toggle-state".spec_bytes(), flag(on)),
            bool_prop("visible".spec_bytes(), visible),
            bool_prop("enabled".spec_bytes(), enabled),
        ],
    }
}

/// Writes the properties of a regular, checkbox or radio item into the array started at `start`.
fn encode_plain(
    body: &mut Vec<u8>,
    label: &str,
    toggle_type: Option<&str>,
    toggle_state: Option<bool>,
    visible: bool,
    enabled: bool,
    Ghost(pre): Ghost<Seq<u8>>,
    Ghost(start): Ghost<nat>,
)
    requires
        toggle_type is Some <==> toggle_state is Some,
        start == pre.len() + array_head(pre.len(), 8).len(),
        old(body)@ == pre + array_head(pre.len(), 8) + marshal_seq(start, Seq::<Wire>::empty()),
    ensures
        final(body)@ == pre + array_head(pre.len(), 8) + marshal_seq(
            start,
            plain_properties(
                label.spec_bytes(),
                match toggle_type {
                    Some(t) => Some((t.spec_bytes(), toggle_state->Some_0)),
                    None => None,
                },
                visible,
                enabled,
            ),
        ),
{
    let ghost elems: Seq<Wire> = Seq::empty();
    push_property_str(body, "label", label, Ghost(pre), Ghost(start), Ghost(elems));
    proof { elems = elems.push(str_prop("label".spec_bytes(), label.spec_bytes())); }
    if let Some(t) = toggle_type {
        let on = match toggle_state {
            Some(b) => b,
            None => false,
        };
        push_property_str(body, "toggle-type", t, Ghost(pre), Ghost(start), Ghost(elems));
        proof { elems = elems.push(str_prop("toggle-type".spec_bytes(), t.spec_bytes())); }
        push_property_i32(body, "toggle-state", if on { 1 } else { 0 }, Ghost(pre), Ghost(start), Ghost(elems));
        proof { elems = elems.push(i32_prop("toggle-state".spec_bytes(), flag(on))); }
    }
    push_property_bool(body, "visible", visible, Ghost(pre), Ghost(start), Ghost(elems));
    proof { elems = elems.push(bool_prop("visible".spec_bytes(), visible)); }
    push_property_bool(body, "enabled", enabled, Ghost(pre), Ghost(start), Ghost(elems));
    proof {
        elems = elems.push(bool_prop("enabled".spec_bytes(), enabled));
        let toggle = match toggle_type {
            Some(t) => Some((t.spec_bytes(), toggle_state->Some_0)),
            None => None,
        };
        assert(elems =~= plain_properties(label.spec_bytes(), toggle, visible, enabled));
    }
}

/// Appends a str property as the next element of an array of properties.
fn push_property_str(
    body: &mut Vec<u8>,
    name: &str,
    value: &str,
    Ghost(pre): Ghost<Seq<u8>>,
    Ghost(start): Ghost<nat>,
    Ghost(elems): Ghost<Seq<Wire>>,
)
    requires
        start == pre.len() + array_head(pre.len(), 8).len(),
        old(body)@ == pre + array_head(pre.len(), 8) + marshal_seq(start, elems),
    ensures
        final(body)@ == pre + array_head(pre.len(), 8) + marshal_seq(start, elems.push(str_prop(name.spec_bytes(), value.spec_bytes()))),
{
    write_property_str(body, name, value);
    proof {
        lemma_array_push(pre, 8, start, elems, str_prop(name.spec_bytes(), value.spec_bytes()));
    }
}

/// Appends a bool property as the next element of an array of properties.
fn push_property_bool(
    body: &mut Vec<u8>,
    name: &str,
    value: bool,
    Ghost(pre): Ghost<Seq<u8>>,
    Ghost(start): Ghost<nat>,
    Ghost(elems): Ghost<Seq<Wire>>,
)
    requires
        start == pre.len() + array_head(pre.len(), 8).len(),
        old(body)@ == pre + array_head(pre.len(), 8) + marshal_seq(start, elems),
    ensures
        final(body)@ == pre + array_head(pre.len(), 8) + marshal_seq(start, elems.push(bool_prop(name.spec_bytes(), value))),
{
    write_property_bool(body, name, value);
    proof {
        lemma_array_push(pre, 8, start, elems, bool_prop(name.spec_bytes(), value));
    }
}

/// Appends a i32 property as the next element of an array of properties.
fn push_property_i32(
    body: &mut Vec<u8>,
    name: &str,
    value: i32,
    Ghost(pre): Ghost<Seq<u8>>,
    Ghost(start): Ghost<nat>,
    Ghost(elems): Ghost<Seq<Wire>>,
)
    requires
        start == pre.len() + array_head(pre.len(), 8).len(),
        old(body)@ == pre + array_head(pre.len(), 8) + marshal_seq(start, elems),
    ensures
        final(body)@ == pre + array_head(pre.len(), 8) + marshal_seq(start, elems.push(i32_prop(name.spec_bytes(), value))),
{
    write_property_i32(body, name, value);
    proof {
        lemma_array_push(pre, 8, start, elems, i32_prop(name.spec_bytes(), value));
    }
}

/// Appends a string property `{sv}`.
pub fn write_property_str(body: &mut Vec<u8>, name: &str, value: &str)
    ensures
        final(body)@ == old(body)@ + marshal(old(body)@.len(), str_prop(name.spec_bytes(), value.spec_bytes())),
{
    put_pad(body, 8);
    put_str(body, name);
    put_sig(body, "s");
    put_str(body, value);
    proof {
        lemma_dict_entry(old(body)@.len(), name.spec_bytes(), "s".spec_bytes(), Wire::Str(value.spec_bytes()));
        assert(body@ =~= old(body)@ + marshal(old(body)@.len(), str_prop(name.spec_bytes(), value.spec_bytes())));
    }
}

/// Appends a boolean property `{sv}`.
pub fn write_property_bool(body: &mut Vec<u8>, name: &str, value: bool)
    ensures
        final(body)@ == old(body)@ + marshal(old(body)@.len(), bool_prop(name.spec_bytes(), value)),
{
    put_pad(body, 8);
    put_str(body, name);
    put_sig(body, "b");
    put_bool(body, value);
    proof {
        lemma_dict_entry(old(body)@.len(), name.spec_bytes(), "b".spec_bytes(), Wire::Bool(value));
        assert(body@ =~= old(body)@ + marshal(old(body)@.len(), bool_prop(name.spec_bytes(), value)));
    }
}

/// Appends an `i32` property `{sv}`.
pub fn write_property_i32(body: &mut Vec<u8>, name: &str, value: i32)
    ensures
        final(body)@ == old(body)@ + marshal(old(body)@.len(), i32_prop(name.spec_bytes(), value)),
{
    put_pad(body, 8);
    put_str(body, name);
    put_sig(body, "i");
    put_i32(body, value);
    proof {
        lemma_dict_entry(old(body)@.len(), name.spec_bytes(), "i".spec_bytes(), Wire::Int32(value));
        assert(body@ =~= old(body)@ + marshal(old(body)@.len(), i32_prop(name.spec_bytes(), value)));
    }
}

} // verus!
