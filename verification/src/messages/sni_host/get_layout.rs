//! The `GetLayout` call that a host sends to read an item's menu, and the
//! reading of its reply into a list of menu entries.
use crate::encoder::{
    call_header, encode_into, encoded, lemma_marshal_seq_two, message, put_i32, put_str_array,
    str_wires, HeaderSpec, MessageEncoder,
};
use crate::error::{DBusError, EncodeError};
use crate::incoming::{IncomingBody, IncomingValue};
use crate::text::str_eq;
use crate::wire::{lemma_marshal_seq_push, Wire};
use vstd::prelude::*;
use vstd::string::StringSliceAdditionalSpecFns;
use vstd::utf8::is_char_boundary;

verus! {

/// A menu entry read from a `GetLayout` reply
#[derive(Debug, PartialEq, Eq)]
pub enum GetLayoutItem<'a> {
    /// A group of items separated from its siblings
    Section {
        /// Items of the group
        children: GetLayoutList<'a>,
    },
    /// A sub-menu
    Nested {
        /// Item id
        id: i32,
        /// Bus name of the menu's owner
        service: &'a str,
        /// Label, at most 100 bytes
        label: &'a str,
        /// Items of the sub-menu
        children: GetLayoutList<'a>,
    },
    /// An item that cannot be clicked
    Disabled {
        /// Item id
        id: i32,
        /// Bus name of the menu's owner
        service: &'a str,
        /// Label, at most 100 bytes
        label: &'a str,
    },
    /// A checkbox
    Checkbox {
        /// Item id
        id: i32,
        /// Bus name of the menu's owner
        service: &'a str,
        /// Label, at most 100 bytes
        label: &'a str,
        /// Whether it is checked
        checked: bool,
    },
    /// A radio item
    Radio {
        /// Item id
        id: i32,
        /// Bus name of the menu's owner
        service: &'a str,
        /// Label, at most 100 bytes
        label: &'a str,
        /// Whether it is selected
        selected: bool,
    },
    /// A simple clickable item
    Regular {
        /// Item id
        id: i32,
        /// Bus name of the menu's owner
        service: &'a str,
        /// Label, at most 100 bytes
        label: &'a str,
    },
}

/// A list of menu entries read from a part of a `GetLayout` reply
#[derive(Debug, PartialEq, Eq)]
pub struct GetLayoutList<'a> {
    /// The entries, in display order
    pub items: Vec<GetLayoutItem<'a>>,
}

impl<'a> GetLayoutList<'a> {
    /// Constructor
    pub fn new() -> (r: Self)
        ensures
            r.items@ == Seq::<GetLayoutItem<'a>>::empty(),
    {
        Self { items: Vec::new() }
    }

    /// Pushes an item
    pub fn push(&mut self, item: GetLayoutItem<'a>)
        ensures
            final(self).items@ == old(self).items@.push(item),
    {
        self.items.push(item);
    }

    /// Returns true if list is empty
    pub fn is_empty(&self) -> (r: bool)
        ensures
            r == (self.items@.len() == 0),
    {
        self.items.len() == 0
    }
}

impl<'a> GetLayoutItem<'a> {
    /// "Section" variant constructor (a group separated from siblings)
    pub fn new_section(children: GetLayoutList<'a>) -> (r: Self)
        ensures
            r == (GetLayoutItem::Section { children }),
    {
        GetLayoutItem::Section { children }
    }

    /// "Nested" variant constructor (sub-menu)
    pub fn new_nested(id: i32, service: &'a str, label: &'a str, children: GetLayoutList<'a>) -> (r: Self)
        ensures
            r == (GetLayoutItem::Nested { id, service, label, children }),
    {
        GetLayoutItem::Nested { id, service, label, children }
    }

    /// "Disabled" variant constructor
    pub fn new_disabled(id: i32, service: &'a str, label: &'a str) -> (r: Self)
        ensures
            r == (GetLayoutItem::Disabled { id, service, label }),
    {
        GetLayoutItem::Disabled { id, service, label }
    }

    /// "Checkbox" variant constructor
    pub fn new_checkbox(id: i32, service: &'a str, label: &'a str, checked: bool) -> (r: Self)
        ensures
            r == (GetLayoutItem::Checkbox { id, service, label, checked }),
    {
        GetLayoutItem::Checkbox { id, service, label, checked }
    }

    /// "Radio" variant constructor
    pub fn new_radio(id: i32, service: &'a str, label: &'a str, selected: bool) -> (r: Self)
        ensures
            r == (GetLayoutItem::Radio { id, service, label, selected }),
    {
        GetLayoutItem::Radio { id, service, label, selected }
    }

    /// "Regular" variant constructor (a simple clickable item)
    pub fn new_regular(id: i32, service: &'a str, label: &'a str) -> (r: Self)
        ensures
            r == (GetLayoutItem::Regular { id, service, label }),
    {
        GetLayoutItem::Regular { id, service, label }
    }
}

/// What a menu entry is, with labels and names as bytes.
pub enum LayoutNode {
    Section { children: Seq<LayoutNode> },
    Nested { id: i32, service: Seq<u8>, label: Seq<u8>, children: Seq<LayoutNode> },
    Disabled { id: i32, service: Seq<u8>, label: Seq<u8> },
    Checkbox { id: i32, service: Seq<u8>, label: Seq<u8>, checked: bool },
    Radio { id: i32, service: Seq<u8>, label: Seq<u8>, selected: bool },
    Regular { id: i32, service: Seq<u8>, label: Seq<u8> },
}

/// The entry that `item` is.
pub open spec fn layout_node(item: GetLayoutItem) -> LayoutNode
    decreases item,
{
    match item {
        GetLayoutItem::Section { children } => LayoutNode::Section { children: layout_nodes(children.items@) },
        GetLayoutItem::Nested { id, service, label, children } => LayoutNode::Nested {
            id,
            service: service.spec_bytes(),
            label: label.spec_bytes(),
            children: layout_nodes(children.items@),
        },
        GetLayoutItem::Disabled { id, service, label } => LayoutNode::Disabled {
            id,
            service: service.spec_bytes(),
            label: label.spec_bytes(),
        },
        GetLayoutItem::Checkbox { id, service, label, checked } => LayoutNode::Checkbox {
            id,
            service: service.spec_bytes(),
            label: label.spec_bytes(),
            checked,
        },
        GetLayoutItem::Radio { id, service, label, selected } => LayoutNode::Radio {
            id,
            service: service.spec_bytes(),
            label: label.spec_bytes(),
            selected,
        },
        GetLayoutItem::Regular { id, service, label } => LayoutNode::Regular {
            id,
            service: service.spec_bytes(),
            label: label.spec_bytes(),
        },
    }
}

/// The entries that `items` hold.
pub open spec fn layout_nodes<'a>(items: Seq<GetLayoutItem<'a>>) -> Seq<LayoutNode>
    decreases items,
{
    if items.len() == 0 {
        Seq::empty()
    } else {
        layout_nodes(items.subrange(0, items.len() - 1)).push(layout_node(items[items.len() - 1]))
    }
}

/// Appending an item appends its entry.
pub proof fn lemma_layout_nodes_push<'a>(items: Seq<GetLayoutItem<'a>>, item: GetLayoutItem<'a>)
    ensures
        layout_nodes(items.push(item)) == layout_nodes(items).push(layout_node(item)),
{
    assert(items.push(item).subrange(0, items.len() as int) =~= items);
}

/// Error for a reply that lacks a value.
pub open spec fn layout_error() -> DBusError {
    DBusError::Other("invalid GetLayout response")
}

/// The properties of a menu item that decide its entry, with their defaults
/// for properties that the reply leaves out.
pub struct LayoutProps {
    pub type_: Seq<u8>,
    pub label: Seq<u8>,
    pub enabled: bool,
    pub visible: bool,
    pub toggle_type: Seq<u8>,
    pub toggle_state: i32,
    pub children_display: Seq<u8>,
}

/// Properties of an item whose reply names none.
pub open spec fn default_props() -> LayoutProps {
    LayoutProps {
        type_: "standard".spec_bytes(),
        label: Seq::empty(),
        enabled: true,
        visible: true,
        toggle_type: Seq::empty(),
        toggle_state: -1i32,
        children_display: Seq::empty(),
    }
}

/// The string a variant holds.
pub open spec fn variant_str(v: IncomingValue) -> Option<Seq<u8>> {
    match v {
        IncomingValue::String(s) => Some(s.spec_bytes()),
        _ => None,
    }
}

/// The boolean a variant holds.
pub open spec fn variant_bool(v: IncomingValue) -> Option<bool> {
    match v {
        IncomingValue::Bool(b) => Some(b),
        _ => None,
    }
}

/// `p` after reading one property entry `{sv}`; properties with other names are ignored.
pub open spec fn apply_prop(p: LayoutProps, prop: IncomingValue) -> Result<LayoutProps, DBusError> {
    match prop {
        IncomingValue::DictEntry(d) => match *d.key {
            IncomingValue::String(k) => match *d.value {
                IncomingValue::Variant(inner) => {
                    let key = k.spec_bytes();
                    let v = *inner;
                    if key == "type".spec_bytes() {
                        match variant_str(v) {
                            Some(s) => Ok(LayoutProps { type_: s, ..p }),
                            None => Err(DBusError::WrongValue),
                        }
                    } else if key == "label".spec_bytes() {
                        match variant_str(v) {
                            Some(s) => Ok(LayoutProps { label: s, ..p }),
                            None => Err(DBusError::WrongValue),
                        }
                    } else if key == "enabled".spec_bytes() {
                        match variant_bool(v) {
                            Some(b) => Ok(LayoutProps { enabled: b, ..p }),
                            None => Err(DBusError::WrongValue),
                        }
                    } else if key == "visible".spec_bytes() {
                        match variant_bool(v) {
                            Some(b) => Ok(LayoutProps { visible: b, ..p }),
                            None => Err(DBusError::WrongValue),
                        }
                    } else if key == "toggle-type".spec_bytes() {
                        match variant_str(v) {
                            Some(s) => Ok(LayoutProps { toggle_type: s, ..p }),
                            None => Err(DBusError::WrongValue),
                        }
                    } else if key == "toggle-state".spec_bytes() {
                        match v {
                            IncomingValue::Int32(x) => Ok(LayoutProps { toggle_state: x, ..p }),
                            _ => Err(DBusError::WrongValue),
                        }
                    } else if key == "children-display".spec_bytes() {
                        match variant_str(v) {
                            Some(s) => Ok(LayoutProps { children_display: s, ..p }),
                            None => Err(DBusError::WrongValue),
                        }
                    } else {
                        Ok(p)
                    }
                },
                _ => Err(DBusError::WrongValue),
            },
            _ => Err(DBusError::WrongValue),
        },
        _ => Err(DBusError::WrongValue),
    }
}

/// The properties read from the entries `props`, in order; the first bad entry fails.
pub open spec fn props_of(props: Seq<IncomingValue>) -> Result<LayoutProps, DBusError>
    decreases props.len(),
{
    if props.len() == 0 {
        Ok(default_props())
    } else {
        match props_of(props.drop_last()) {
            Ok(p) => apply_prop(p, props.last()),
            Err(e) => Err(e),
        }
    }
}

/// How reading a part of a reply ends: with a value, with an error, or in a
/// panic (a label longer than 100 bytes whose 100th byte is inside a character).
pub enum Outcome<T> {
    Done(T),
    Failed(DBusError),
    Panics,
}

/// What one item of a reply adds to the menu.
pub enum Entry {
    Node(LayoutNode),
    Separator,
    Skip,
}

/// The label shown for `label`: its first 100 bytes.
pub open spec fn shown_label(label: Seq<u8>) -> Seq<u8> {
    if label.len() > 100 {
        label.subrange(0, 100)
    } else {
        label
    }
}

/// Whether cutting `label` to 100 bytes would split a character.
pub open spec fn label_cut_panics(label: Seq<u8>) -> bool {
    label.len() > 100 && !is_char_boundary(label, 100)
}

/// The entry of an item with id `id`, properties `p` and sub-entries `children`:
/// hidden items are skipped, then sub-menus, separators, disabled items,
/// checkboxes and radio items are told apart in this order.
pub open spec fn classify(id: i32, service: Seq<u8>, p: LayoutProps, children: Seq<LayoutNode>) -> Entry {
    let label = shown_label(p.label);
    if !p.visible {
        Entry::Skip
    } else if p.children_display == "submenu".spec_bytes() {
        Entry::Node(LayoutNode::Nested { id, service, label, children })
    } else if p.type_ == "separator".spec_bytes() {
        Entry::Separator
    } else if !p.enabled {
        Entry::Node(LayoutNode::Disabled { id, service, label })
    } else if p.toggle_type == "checkmark".spec_bytes() {
        Entry::Node(LayoutNode::Checkbox { id, service, label, checked: p.toggle_state == 1 })
    } else if p.toggle_type == "radio".spec_bytes() {
        Entry::Node(LayoutNode::Radio { id, service, label, selected: p.toggle_state == 1 })
    } else {
        Entry::Node(LayoutNode::Regular { id, service, label })
    }
}

/// Reading one item `(ia{sv}av)` of a reply.
pub open spec fn item_outcome(service: Seq<u8>, item: IncomingValue) -> Outcome<Entry>
    decreases item, 0nat,
{
    match item {
        IncomingValue::Struct(s) => {
            let f = s.fields@;
            if f.len() < 1 {
                Outcome::Failed(layout_error())
            } else {
                match f[0] {
                    IncomingValue::Int32(id) => if f.len() < 2 {
                        Outcome::Failed(layout_error())
                    } else {
                        match f[1] {
                            IncomingValue::Array(props) => match props_of(props.items@) {
                                Err(e) => Outcome::Failed(e),
                                Ok(p) => if f.len() < 3 {
                                    Outcome::Failed(layout_error())
                                } else {
                                    match f[2] {
                                        IncomingValue::Array(ch) => match items_outcome(service, ch.items@) {
                                            Outcome::Done(children) => if label_cut_panics(p.label) {
                                                Outcome::Panics
                                            } else {
                                                Outcome::Done(classify(id, service, p, children))
                                            },
                                            Outcome::Failed(e) => Outcome::Failed(e),
                                            Outcome::Panics => Outcome::Panics,
                                        },
                                        _ => Outcome::Failed(DBusError::WrongValue),
                                    }
                                },
                            },
                            _ => Outcome::Failed(DBusError::WrongValue),
                        }
                    },
                    _ => Outcome::Failed(DBusError::WrongValue),
                }
            }
        },
        _ => Outcome::Failed(DBusError::WrongValue),
    }
}

/// Reading the items `items`, each a variant holding an item, in order:
/// the entries so far, and the batch of entries since the last separator.
pub open spec fn scan_items(service: Seq<u8>, items: Seq<IncomingValue>) -> Outcome<(Seq<LayoutNode>, Seq<LayoutNode>)>
    decreases items, 0nat,
{
    if items.len() == 0 {
        Outcome::Done((Seq::empty(), Seq::empty()))
    } else {
        let last = items[items.len() - 1];
        match scan_items(service, items.subrange(0, items.len() - 1)) {
            Outcome::Done((out, batch)) => match last {
                IncomingValue::Variant(inner) => match item_outcome(service, *inner) {
                    Outcome::Done(Entry::Skip) => Outcome::Done((out, batch)),
                    Outcome::Done(Entry::Node(n)) => Outcome::Done((out, batch.push(n))),
                    Outcome::Done(Entry::Separator) => Outcome::Done(
                        (out.push(LayoutNode::Section { children: batch }), Seq::empty()),
                    ),
                    Outcome::Failed(e) => Outcome::Failed(e),
                    Outcome::Panics => Outcome::Panics,
                },
                _ => Outcome::Failed(DBusError::WrongValue),
            },
            Outcome::Failed(e) => Outcome::Failed(e),
            Outcome::Panics => Outcome::Panics,
        }
    }
}

/// The entries once all items are read: a last batch becomes the whole list
/// if nothing came before it, and a section after earlier entries.
pub open spec fn close_batch(out: Seq<LayoutNode>, batch: Seq<LayoutNode>) -> Seq<LayoutNode> {
    if batch.len() == 0 {
        out
    } else if out.len() == 0 {
        batch
    } else {
        out.push(LayoutNode::Section { children: batch })
    }
}

/// Reading the items `items` into a list of entries.
pub open spec fn items_outcome(service: Seq<u8>, items: Seq<IncomingValue>) -> Outcome<Seq<LayoutNode>>
    decreases items, 1nat,
{
    match scan_items(service, items) {
        Outcome::Done((out, batch)) => Outcome::Done(close_batch(out, batch)),
        Outcome::Failed(e) => Outcome::Failed(e),
        Outcome::Panics => Outcome::Panics,
    }
}

/// An error in the first `k` property entries is the error of all of them.
proof fn lemma_props_fail(props: Seq<IncomingValue>, k: int)
    requires
        0 <= k <= props.len(),
        props_of(props.subrange(0, k)) is Err,
    ensures
        props_of(props) == props_of(props.subrange(0, k)),
    decreases props.len() - k,
{
    if k == props.len() {
        assert(props.subrange(0, k) =~= props);
    } else {
        assert(props.subrange(0, k + 1).drop_last() =~= props.subrange(0, k));
        lemma_props_fail(props, k + 1);
    }
}

/// The properties of an item as they are read.
#[derive(Clone, Copy)]
struct RawProps<'v> {
    type_: &'v str,
    label: &'v str,
    enabled: bool,
    visible: bool,
    toggle_type: &'v str,
    toggle_state: i32,
    children_display: &'v str,
}

impl<'v> RawProps<'v> {
    spec fn model(self) -> LayoutProps {
        LayoutProps {
            type_: self.type_.spec_bytes(),
            label: self.label.spec_bytes(),
            enabled: self.enabled,
            visible: self.visible,
            toggle_type: self.toggle_type.spec_bytes(),
            toggle_state: self.toggle_state,
            children_display: self.children_display.spec_bytes(),
        }
    }
}

/// The string that `v` holds.
fn string_value<'v>(v: IncomingValue<'v>) -> (r: Result<&'v str, DBusError>)
    ensures
        match variant_str(v) {
            Some(s) => r matches Ok(x) && x.spec_bytes() == s,
            None => r matches Err(e) && e == DBusError::WrongValue,
        },
{
    match v {
        IncomingValue::String(s) => Ok(s),
        _ => Err(DBusError::WrongValue),
    }
}

/// The boolean that `v` holds.
fn bool_value(v: IncomingValue) -> (r: Result<bool, DBusError>)
    ensures
        match variant_bool(v) {
            Some(b) => r == Ok::<bool, DBusError>(b),
            None => r == Err::<bool, DBusError>(DBusError::WrongValue),
        },
{
    match v {
        IncomingValue::Bool(b) => Ok(b),
        _ => Err(DBusError::WrongValue),
    }
}

/// `p` after reading the property entry `prop`.
fn read_prop<'v>(p: RawProps<'v>, prop: IncomingValue<'v>) -> (r: Result<RawProps<'v>, DBusError>)
    ensures
        match apply_prop(p.model(), prop) {
            Ok(q) => r matches Ok(x) && x.model() == q,
            Err(e) => r matches Err(x) && x == e,
        },
{
    let d = match prop {
        IncomingValue::DictEntry(d) => d,
        _ => return Err(DBusError::WrongValue),
    };
    let key = match *d.key {
        IncomingValue::String(k) => k,
        _ => return Err(DBusError::WrongValue),
    };
    let v = match *d.value {
        IncomingValue::Variant(inner) => *inner,
        _ => return Err(DBusError::WrongValue),
    };
    let mut q = p;
    if str_eq(key, "type") {
        q.type_ = string_value(v)?;
    } else if str_eq(key, "label") {
        q.label = string_value(v)?;
    } else if str_eq(key, "enabled") {
        q.enabled = bool_value(v)?;
    } else if str_eq(key, "visible") {
        q.visible = bool_value(v)?;
    } else if str_eq(key, "toggle-type") {
        q.toggle_type = string_value(v)?;
    } else if str_eq(key, "toggle-state") {
        q.toggle_state = match v {
            IncomingValue::Int32(x) => x,
            _ => return Err(DBusError::WrongValue),
        };
    } else if str_eq(key, "children-display") {
        q.children_display = string_value(v)?;
    }
    Ok(q)
}

/// Reads the property entries `props` of an item.
fn read_props<'v>(props: &Vec<IncomingValue<'v>>) -> (r: Result<RawProps<'v>, DBusError>)
    ensures
        match props_of(props@) {
            Ok(p) => r matches Ok(x) && x.model() == p,
            Err(e) => r matches Err(x) && x == e,
        },
{
    let mut p = RawProps {
        type_: "standard",
        label: "",
        enabled: true,
        visible: true,
        toggle_type: "",
        toggle_state: -1,
        children_display: "",
    };
    proof {
        reveal_strlit("");
        assert(props@.subrange(0, 0) =~= Seq::<IncomingValue>::empty());
        assert(p.model() == default_props());
    }
    let n = props.len();
    let mut i: usize = 0;
    while i < n
        invariant
            n == props@.len(),
            i <= n,
            props_of(props@.subrange(0, i as int)) == Ok::<LayoutProps, DBusError>(p.model()),
        decreases n - i,
    {
        proof {
            assert(props@.subrange(0, i + 1).drop_last() =~= props@.subrange(0, i as int));
        }
        match read_prop(p, props[i]) {
            Ok(q) => {
                p = q;
            },
            Err(e) => {
                proof {
                    lemma_props_fail(props@, i + 1);
                }
                return Err(e);
            },
        }
        i = i + 1;
    }
    proof {
        assert(props@.subrange(0, n as int) =~= props@);
    }
    Ok(p)
}

/// An error or a panic in the first `k` items is the outcome of reading all of them.
proof fn lemma_scan_stops(service: Seq<u8>, items: Seq<IncomingValue>, k: int)
    requires
        0 <= k <= items.len(),
        !(scan_items(service, items.subrange(0, k)) is Done),
    ensures
        scan_items(service, items) == scan_items(service, items.subrange(0, k)),
    decreases items.len() - k,
{
    if k == items.len() {
        assert(items.subrange(0, k) =~= items);
    } else {
        let next = items.subrange(0, k + 1);
        assert(next.subrange(0, k) =~= items.subrange(0, k));
        lemma_scan_stops(service, items, k + 1);
    }
}

/// What one item of a reply adds to the menu.
enum ItemOrSeparator<'v> {
    Item(GetLayoutItem<'v>),
    Separator,
    Skip,
}

/// The entry that `e` stands for.
spec fn entry_of(e: ItemOrSeparator) -> Entry {
    match e {
        ItemOrSeparator::Item(i) => Entry::Node(layout_node(i)),
        ItemOrSeparator::Separator => Entry::Separator,
        ItemOrSeparator::Skip => Entry::Skip,
    }
}

/// Reads one item `(ia{sv}av)` of a reply, with its sub-items.
fn parse_item<'v>(service: &'v str, item: IncomingValue<'v>) -> (r: Result<ItemOrSeparator<'v>, DBusError>)
    requires
        !(item_outcome(service.spec_bytes(), item) is Panics),
    ensures
        match item_outcome(service.spec_bytes(), item) {
            Outcome::Done(e) => r matches Ok(x) && entry_of(x) == e,
            Outcome::Failed(e) => r matches Err(x) && x == e,
            Outcome::Panics => false,
        },
    decreases item,
{
    let fields = match item {
        IncomingValue::Struct(s) => s.fields,
        _ => return Err(DBusError::WrongValue),
    };
    if fields.len() < 1 {
        return Err(DBusError::Other("invalid GetLayout response"));
    }
    let id = match fields[0] {
        IncomingValue::Int32(id) => id,
        _ => return Err(DBusError::WrongValue),
    };
    if fields.len() < 2 {
        return Err(DBusError::Other("invalid GetLayout response"));
    }
    let props = match fields[1] {
        IncomingValue::Array(a) => a.items,
        _ => return Err(DBusError::WrongValue),
    };
    let p = read_props(props)?;
    if fields.len() < 3 {
        return Err(DBusError::Other("invalid GetLayout response"));
    }
    let sub = match fields[2] {
        IncomingValue::Array(a) => a.items,
        _ => return Err(DBusError::WrongValue),
    };
    let children = parse_items(service, sub)?;
    let label = if p.label.as_bytes().len() > 100 {
        let (head, _) = p.label.split_at(100);
        assert(head.spec_bytes() =~= p.label.spec_bytes().subrange(0, 100));
        head
    } else {
        p.label
    };
    assert(label.spec_bytes() == shown_label(p.model().label));
    if !p.visible {
        Ok(ItemOrSeparator::Skip)
    } else if str_eq(p.children_display, "submenu") {
        Ok(ItemOrSeparator::Item(GetLayoutItem::Nested { id, service, label, children }))
    } else if str_eq(p.type_, "separator") {
        Ok(ItemOrSeparator::Separator)
    } else if !p.enabled {
        Ok(ItemOrSeparator::Item(GetLayoutItem::Disabled { id, service, label }))
    } else if str_eq(p.toggle_type, "checkmark") {
        Ok(ItemOrSeparator::Item(GetLayoutItem::Checkbox { id, service, label, checked: p.toggle_state == 1 }))
    } else if str_eq(p.toggle_type, "radio") {
        Ok(ItemOrSeparator::Item(GetLayoutItem::Radio { id, service, label, selected: p.toggle_state == 1 }))
    } else {
        Ok(ItemOrSeparator::Item(GetLayoutItem::Regular { id, service, label }))
    }
}

/// Reads the items `items`, each a variant holding an item, into a list of entries.
fn parse_items<'v>(service: &'v str, items: &'v Vec<IncomingValue<'v>>) -> (r: Result<GetLayoutList<'v>, DBusError>)
    requires
        !(items_outcome(service.spec_bytes(), items@) is Panics),
    ensures
        match items_outcome(service.spec_bytes(), items@) {
            Outcome::Done(nodes) => r matches Ok(l) && layout_nodes(l.items@) == nodes,
            Outcome::Failed(e) => r matches Err(x) && x == e,
            Outcome::Panics => false,
        },
    decreases items@,
{
    let ghost svc = service.spec_bytes();
    let mut out: Vec<GetLayoutItem<'v>> = Vec::new();
    let mut batch: Vec<GetLayoutItem<'v>> = Vec::new();
    let n = items.len();
    let mut i: usize = 0;
    proof {
        assert(items@.subrange(0, 0) =~= Seq::<IncomingValue>::empty());
        assert(layout_nodes(out@) =~= Seq::<LayoutNode>::empty());
        assert(layout_nodes(batch@) =~= Seq::<LayoutNode>::empty());
    }
    while i < n
        invariant
            n == items@.len(),
            i <= n,
            svc == service.spec_bytes(),
            !(items_outcome(svc, items@) is Panics),
            scan_items(svc, items@.subrange(0, i as int)) == Outcome::Done((layout_nodes(out@), layout_nodes(batch@))),
        decreases n - i,
    {
        let ghost next = items@.subrange(0, i + 1);
        proof {
            assert(next.subrange(0, i as int) =~= items@.subrange(0, i as int));
            assert(next[next.len() - 1] == items@[i as int]);
        }
        let inner = match items[i] {
            IncomingValue::Variant(inner) => inner,
            _ => {
                proof {
                    lemma_scan_stops(svc, items@, i + 1);
                }
                return Err(DBusError::WrongValue);
            },
        };
        proof {
            if item_outcome(svc, *inner) is Panics {
                lemma_scan_stops(svc, items@, i + 1);
            }
            assert(decreases_to!(items@ => items@[i as int]));
        }
        match parse_item(service, *inner) {
            Ok(ItemOrSeparator::Skip) => {},
            Ok(ItemOrSeparator::Item(it)) => {
                proof {
                    lemma_layout_nodes_push(batch@, it);
                }
                batch.push(it);
            },
            Ok(ItemOrSeparator::Separator) => {
                let children = batch;
                batch = Vec::new();
                let section = GetLayoutItem::Section { children: GetLayoutList { items: children } };
                proof {
                    lemma_layout_nodes_push(out@, section);
                    assert(layout_nodes(batch@) =~= Seq::<LayoutNode>::empty());
                }
                out.push(section);
            },
            Err(e) => {
                proof {
                    lemma_scan_stops(svc, items@, i + 1);
                }
                return Err(e);
            },
        }
        i = i + 1;
    }
    proof {
        assert(items@.subrange(0, n as int) =~= items@);
    }
    if batch.len() == 0 {
        Ok(GetLayoutList { items: out })
    } else if out.len() == 0 {
        Ok(GetLayoutList { items: batch })
    } else {
        let section = GetLayoutItem::Section { children: GetLayoutList { items: batch } };
        proof {
            lemma_layout_nodes_push(out@, section);
        }
        out.push(section);
        Ok(GetLayoutList { items: out })
    }
}

/// A visible, enabled radio item (one whose toggle type is `radio`, which is
/// neither a sub-menu nor a separator) is read as a radio entry with its id,
/// its label cut to 100 bytes, and selected exactly when its toggle state is
/// 1: a toggle state of 0, or none (which reads as -1), is not selected.
pub proof fn lemma_radio_item_read(
    service: Seq<u8>,
    item: IncomingValue,
    id: i32,
    p: LayoutProps,
    children: Seq<LayoutNode>,
)
    requires
        item is Struct,
        ({
            let f = item->Struct_0.fields@;
            &&& f.len() >= 3
            &&& f[0] == IncomingValue::Int32(id)
            &&& f[1] is Array
            &&& props_of(f[1]->Array_0.items@) == Ok::<LayoutProps, DBusError>(p)
            &&& f[2] is Array
            &&& items_outcome(service, f[2]->Array_0.items@) == Outcome::Done(children)
        }),
        p.visible,
        p.enabled,
        p.children_display != "submenu".spec_bytes(),
        p.type_ != "separator".spec_bytes(),
        p.toggle_type == "radio".spec_bytes(),
        !label_cut_panics(p.label),
    ensures
        p.toggle_state == 1 ==> item_outcome(service, item) == Outcome::Done(
            Entry::Node(LayoutNode::Radio { id, service, label: shown_label(p.label), selected: true }),
        ),
        p.toggle_state != 1 ==> item_outcome(service, item) == Outcome::Done(
            Entry::Node(LayoutNode::Radio { id, service, label: shown_label(p.label), selected: false }),
        ),
{
    reveal_strlit("checkmark");
    reveal_strlit("radio");
    assert(vstd::string::is_ascii("checkmark"));
    assert(vstd::string::is_ascii("radio"));
    vstd::string::is_ascii_spec_bytes("checkmark");
    vstd::string::is_ascii_spec_bytes("radio");
    assert("checkmark".spec_bytes() != "radio".spec_bytes()) by {
        assert("checkmark".spec_bytes().len() != "radio".spec_bytes().len());
    }
}

/// How reading a part of a reply ends, without what it reads.
enum ReadKind {
    Done,
    Failed,
    Panics,
}

/// The way `o` ends.
spec fn kind_of<T>(o: Outcome<T>) -> ReadKind {
    match o {
        Outcome::Done(_) => ReadKind::Done,
        Outcome::Failed(_) => ReadKind::Failed,
        Outcome::Panics => ReadKind::Panics,
    }
}

/// How reading one item `(ia{sv}av)` of a reply, with its sub-items, ends.
fn item_kind(service: &str, item: IncomingValue) -> (k: ReadKind)
    ensures
        k == kind_of(item_outcome(service.spec_bytes(), item)),
    decreases item,
{
    let fields = match item {
        IncomingValue::Struct(s) => s.fields,
        _ => return ReadKind::Failed,
    };
    if fields.len() < 1 {
        return ReadKind::Failed;
    }
    match fields[0] {
        IncomingValue::Int32(_) => {},
        _ => return ReadKind::Failed,
    }
    if fields.len() < 2 {
        return ReadKind::Failed;
    }
    let props = match fields[1] {
        IncomingValue::Array(a) => a.items,
        _ => return ReadKind::Failed,
    };
    let p = match read_props(props) {
        Ok(p) => p,
        Err(_) => return ReadKind::Failed,
    };
    if fields.len() < 3 {
        return ReadKind::Failed;
    }
    let sub = match fields[2] {
        IncomingValue::Array(a) => a.items,
        _ => return ReadKind::Failed,
    };
    match items_kind(service, sub) {
        ReadKind::Done => {
            if p.label.as_bytes().len() > 100 && !p.label.is_char_boundary(100) {
                ReadKind::Panics
            } else {
                ReadKind::Done
            }
        },
        ReadKind::Failed => ReadKind::Failed,
        ReadKind::Panics => ReadKind::Panics,
    }
}

/// How reading the items `items`, each a variant holding an item, ends.
fn items_kind(service: &str, items: &Vec<IncomingValue>) -> (k: ReadKind)
    ensures
        k == kind_of(items_outcome(service.spec_bytes(), items@)),
    decreases items@,
{
    let ghost svc = service.spec_bytes();
    let n = items.len();
    let mut i: usize = 0;
    proof {
        assert(items@.subrange(0, 0) =~= Seq::<IncomingValue>::empty());
    }
    while i < n
        invariant
            n == items@.len(),
            i <= n,
            svc == service.spec_bytes(),
            scan_items(svc, items@.subrange(0, i as int)) is Done,
        decreases n - i,
    {
        let ghost next = items@.subrange(0, i + 1);
        proof {
            assert(next.subrange(0, i as int) =~= items@.subrange(0, i as int));
            assert(next[next.len() - 1] == items@[i as int]);
        }
        let inner = match items[i] {
            IncomingValue::Variant(inner) => inner,
            _ => {
                proof {
                    lemma_scan_stops(svc, items@, i + 1);
                }
                return ReadKind::Failed;
            },
        };
        proof {
            assert(decreases_to!(items@ => items@[i as int]));
        }
        match item_kind(service, *inner) {
            ReadKind::Done => {},
            ReadKind::Failed => {
                proof {
                    lemma_scan_stops(svc, items@, i + 1);
                }
                return ReadKind::Failed;
            },
            ReadKind::Panics => {
                proof {
                    lemma_scan_stops(svc, items@, i + 1);
                }
                return ReadKind::Panics;
            },
        }
        i = i + 1;
    }
    proof {
        assert(items@.subrange(0, n as int) =~= items@);
    }
    ReadKind::Done
}

/// Reading a `GetLayout` reply `(u(ia{sv}av))` with values `values`: the
/// entries of the root item's children.
pub open spec fn layout_reply(service: Seq<u8>, values: Seq<IncomingValue>) -> Outcome<Seq<LayoutNode>> {
    if values.len() < 2 {
        Outcome::Failed(layout_error())
    } else {
        match values[1] {
            IncomingValue::Struct(root) => {
                let f = root.fields@;
                if f.len() < 3 {
                    Outcome::Failed(layout_error())
                } else {
                    match f[2] {
                        IncomingValue::Array(a) => items_outcome(service, a.items@),
                        _ => Outcome::Failed(DBusError::WrongValue),
                    }
                }
            },
            _ => Outcome::Failed(DBusError::WrongValue),
        }
    }
}

/// The properties that a host asks for in `GetLayout`.
pub open spec fn layout_property_names() -> Seq<Wire> {
    seq![
        Wire::Str("type".spec_bytes()),
        Wire::Str("label".spec_bytes()),
        Wire::Str("enabled".spec_bytes()),
        Wire::Str("visible".spec_bytes()),
        Wire::Str("toggle-type".spec_bytes()),
        Wire::Str("toggle-state".spec_bytes()),
        Wire::Str("children-display".spec_bytes()),
    ]
}

/// Header of the `GetLayout` call to the menu at `path` of `destination`.
pub open spec fn get_layout_header(destination: Seq<u8>, path: Seq<u8>) -> HeaderSpec {
    call_header(destination, path, "com.canonical.dbusmenu".spec_bytes(), "GetLayout".spec_bytes(), "iias".spec_bytes())
}

/// Body of the `GetLayout` call for the whole menu: from the root, to any depth.
pub open spec fn get_layout_body() -> Seq<Wire> {
    seq![Wire::Int32(0), Wire::Int32(-1i32), Wire::Array(4, layout_property_names())]
}

/// The `GetLayout` call for the whole menu at `path` of `destination`.
pub open spec fn get_layout_message(destination: Seq<u8>, path: Seq<u8>) -> Seq<u8> {
    message(get_layout_header(destination, path), get_layout_body())
}

/// A helper struct that sends `GetLayout` and reads its reply
#[derive(Clone, Copy)]
pub struct GetLayout<'a> {
    destination: &'a str,
}

impl<'a> GetLayout<'a> {
    /// Bus name of the menu's owner.
    pub closed spec fn spec_destination(&self) -> &'a str {
        self.destination
    }

    /// Constructor
    pub fn new(destination: &'a str) -> (r: Self)
        ensures
            r.spec_destination() == destination,
    {
        Self { destination }
    }

    /// Writes the `GetLayout` call for `(destination, path)` into `buf`: the
    /// whole menu below the root, with the properties a host shows.
    ///
    /// # Errors
    ///
    /// Returns an error if the message doesn't fit into `buf`.
    pub fn encode<'b>(args: (&str, &str), buf: &'b mut [u8]) -> (r: Result<&'b [u8], EncodeError>)
        ensures
            encoded(r, old(buf)@, final(buf)@, get_layout_message(args.0.spec_bytes(), args.1.spec_bytes())),
    {
        let (destination, path) = args;
        let mut e = MessageEncoder::method_call(destination, path, "com.canonical.dbusmenu", "GetLayout");
        e.signature = Some("iias");
        put_i32(&mut e.body, 0);
        put_i32(&mut e.body, -1);
        proof {
            lemma_marshal_seq_two(0, Wire::Int32(0), Wire::Int32(-1i32));
        }
        let names: [&str; 7] = ["type", "label", "enabled", "visible", "toggle-type", "toggle-state", "children-display"];
        put_str_array(&mut e.body, &names);
        proof {
            let two = seq![Wire::Int32(0), Wire::Int32(-1i32)];
            assert(str_wires(names@) =~= layout_property_names());
            lemma_marshal_seq_push(0, two, Wire::Array(4, layout_property_names()));
            assert(two.push(Wire::Array(4, layout_property_names())) =~= seq![
                Wire::Int32(0),
                Wire::Int32(-1i32),
                Wire::Array(4, layout_property_names()),
            ]);
        }
        encode_into(&e, buf)
    }

    /// Whether reading the `GetLayout` reply `body` would cut a label of more
    /// than 100 bytes inside a character: the one reply that
    /// `handle_reply_body` cannot be given.
    pub fn cuts_label_inside_char(&self, body: IncomingBody) -> (b: bool)
        ensures
            b == (layout_reply(self.spec_destination().spec_bytes(), body.values@) is Panics),
    {
        if body.values.len() < 2 {
            return false;
        }
        let fields = match body.values[1] {
            IncomingValue::Struct(root) => root.fields,
            _ => return false,
        };
        if fields.len() < 3 {
            return false;
        }
        match fields[2] {
            IncomingValue::Array(a) => match items_kind(self.destination, a.items) {
                ReadKind::Panics => true,
                _ => false,
            },
            _ => false,
        }
    }

    /// Reads the body of a `GetLayout` reply into the entries of the root's
    /// children: hidden items are left out, sub-menus nest, and the items
    /// between separators form sections.
    ///
    /// # Errors
    ///
    /// Returns an error if a value is missing or has another type.
    pub fn handle_reply_body<'b>(&'b self, body: IncomingBody<'b>) -> (r: Result<GetLayoutList<'b>, DBusError>)
        requires
            !(layout_reply(self.spec_destination().spec_bytes(), body.values@) is Panics),
        ensures
            match layout_reply(self.spec_destination().spec_bytes(), body.values@) {
                Outcome::Done(nodes) => r matches Ok(l) && layout_nodes(l.items@) == nodes,
                Outcome::Failed(e) => r matches Err(x) && x == e,
                Outcome::Panics => false,
            },
    {
        if body.values.len() < 2 {
            return Err(DBusError::Other("invalid GetLayout response"));
        }
        let fields = match body.values[1] {
            IncomingValue::Struct(root) => root.fields,
            _ => return Err(DBusError::WrongValue),
        };
        if fields.len() < 3 {
            return Err(DBusError::Other("invalid GetLayout response"));
        }
        match fields[2] {
            IncomingValue::Array(a) => parse_items(self.destination, a.items),
            _ => Err(DBusError::WrongValue),
        }
    }
}

} // verus!
