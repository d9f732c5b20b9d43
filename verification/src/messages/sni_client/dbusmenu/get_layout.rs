//! `GetLayout`: the menu tree, as deep as the host asks.
use super::item::{
    find_in_items, item_properties, str_prop, write_property_str, DBusMenuItem, DBusMenuList,
};
use crate::encoder::{
    begin_array, encode_reply, encoded_reply, end_array_of, lemma_array_empty, lemma_array_push,
    lemma_marshal_seq_three, lemma_marshal_seq_one, lemma_marshal_seq_two, message, put_i32,
    put_pad, put_sig, put_u32, reply_header, MessageEncoder,
};
use crate::error::DBusError;
use crate::wire::{lemma_marshal_seq_push, lemma_struct, lemma_variant, marshal, marshal_seq, Wire};
use vstd::prelude::*;
use vstd::string::StringSliceAdditionalSpecFns;

verus! {

/// Replies to `GetLayout` requests.
pub struct GetLayout;

/// The depth for the children of an item shown to `depth`: negative means
/// unlimited, 0 means no children.
pub open spec fn spec_child_depth(depth: i32) -> Option<i32> {
    if depth < 0 {
        Some(-1i32)
    } else if depth > 0 {
        Some((depth - 1) as i32)
    } else {
        None
    }
}

/// Signature of one layout node.
pub open spec fn layout_sig() -> Seq<u8> {
    "(ia{sv}av)".spec_bytes()
}

/// A layout node for `item`, shown to `depth`, wrapped in a variant.
pub open spec fn layout_item(item: DBusMenuItem, depth: i32) -> Wire
    decreases item,
{
    let children = match spec_child_depth(depth) {
        Some(d) => match item {
            DBusMenuItem::Submenu { children, .. } => layout_list(children.items@, d),
            _ => Seq::empty(),
        },
        None => Seq::empty(),
    };
    Wire::Variant(
        layout_sig(),
        Box::new(
            Wire::Struct(
                seq![
                    Wire::Int32(item.spec_id()),
                    Wire::Array(8, item_properties(item)),
                    Wire::Array(1, children),
                ],
            ),
        ),
    )
}

/// Layout nodes for `items`, each shown to `depth`.
pub open spec fn layout_list(items: Seq<DBusMenuItem>, depth: i32) -> Seq<Wire>
    decreases items,
{
    if items.len() == 0 {
        Seq::empty()
    } else {
        layout_list(items.subrange(0, items.len() - 1), depth).push(
            layout_item(items[items.len() - 1], depth),
        )
    }
}

/// Properties of the root node: it displays a submenu when it has items.
pub open spec fn root_properties(items: Seq<DBusMenuItem>) -> Seq<Wire> {
    if items.len() > 0 {
        seq![str_prop("children-display".spec_bytes(), "submenu".spec_bytes())]
    } else {
        Seq::empty()
    }
}

/// The root node (id 0) over `items`, shown to `depth`.
pub open spec fn root_layout(items: Seq<DBusMenuItem>, depth: i32) -> Wire {
    Wire::Struct(
        seq![
            Wire::Int32(0),
            Wire::Array(8, root_properties(items)),
            Wire::Array(
                1,
                match spec_child_depth(depth) {
                    Some(d) => layout_list(items, d),
                    None => Seq::empty(),
                },
            ),
        ],
    )
}

/// Body of the reply: the revision, then the node `parent` (the root for 0),
/// or nothing more when there is no such item.
pub open spec fn layout_body(revision: u32, menu: Seq<DBusMenuItem>, parent: i32, depth: i32) -> Seq<Wire> {
    if parent == 0 {
        seq![Wire::UInt32(revision), root_layout(menu, depth)]
    } else {
        match find_in_items(menu, parent) {
            Some(item) => seq![Wire::UInt32(revision), layout_item(item, depth)],
            None => seq![Wire::UInt32(revision)],
        }
    }
}

/// The reply to `GetLayout(parent, depth)`.
pub open spec fn get_layout_reply_message(
    serial: u32,
    destination: Seq<u8>,
    revision: u32,
    menu: Seq<DBusMenuItem>,
    parent: i32,
    depth: i32,
) -> Seq<u8> {
    message(
        reply_header(serial, destination, "u(ia{sv}av)".spec_bytes()),
        layout_body(revision, menu, parent, depth),
    )
}

/// The fields of a layout node `w`, whether it stands alone (the root) or in
/// a variant (every other node).
pub open spec fn node_fields(w: Wire) -> Seq<Wire> {
    match w {
        Wire::Variant(_, b) => match *b {
            Wire::Struct(f) => f,
            _ => Seq::empty(),
        },
        Wire::Struct(f) => f,
        _ => Seq::empty(),
    }
}

/// The id of the layout node `w`.
pub open spec fn node_id(w: Wire) -> Option<i32> {
    let f = node_fields(w);
    if f.len() >= 1 {
        match f[0] {
            Wire::Int32(i) => Some(i),
            _ => None,
        }
    } else {
        None
    }
}

/// The child nodes of the layout node `w`.
pub open spec fn node_children(w: Wire) -> Seq<Wire> {
    let f = node_fields(w);
    if f.len() >= 3 {
        match f[2] {
            Wire::Array(_, ch) => ch,
            _ => Seq::empty(),
        }
    } else {
        Seq::empty()
    }
}

/// Whether no node lies more than `d` levels below the layout node `w`.
pub open spec fn node_within(w: Wire, d: int) -> bool
    decreases w,
{
    match w {
        Wire::Variant(_, b) => node_within(*b, d),
        Wire::Struct(f) => f.len() < 3 || match f[2] {
            Wire::Array(_, ch) => ch.len() == 0 || (d >= 1 && nodes_within(ch, d - 1)),
            _ => true,
        },
        _ => true,
    }
}

/// Whether no node lies more than `d` levels below any of the nodes `ws`.
pub open spec fn nodes_within(ws: Seq<Wire>, d: int) -> bool
    decreases ws,
{
    ws.len() == 0 || (nodes_within(ws.subrange(0, ws.len() - 1), d) && node_within(ws[ws.len() - 1], d))
}

/// Whether the nodes `ws` are the items `items`, in order, each with the
/// nodes of its sub-items to `levels` levels (the nodes themselves counting
/// as the first level).
pub open spec fn shows_items(items: Seq<DBusMenuItem>, ws: Seq<Wire>, levels: int) -> bool
    decreases items,
{
    ws.len() == items.len() && (items.len() == 0 || (shows_items(
        items.subrange(0, items.len() - 1),
        ws.subrange(0, ws.len() - 1),
        levels,
    ) && shows_item(items[items.len() - 1], ws[ws.len() - 1], levels)))
}

/// Whether `w` is the node of `item`, with its sub-items to `levels` levels.
pub open spec fn shows_item(item: DBusMenuItem, w: Wire, levels: int) -> bool
    decreases item,
{
    &&& node_id(w) == Some(item.spec_id())
    &&& levels >= 2 ==> match item {
        DBusMenuItem::Submenu { children, .. } => shows_items(children.items@, node_children(w), levels - 1),
        _ => true,
    }
}

/// The node of `item` laid out to `depth >= 0` reaches no deeper than
/// `depth` levels, and shows `item` with its sub-items down to `depth + 1`
/// levels counting itself.
pub proof fn lemma_item_layout_depth(item: DBusMenuItem, depth: i32)
    requires
        depth >= 0,
    ensures
        node_within(layout_item(item, depth), depth as int),
        shows_item(item, layout_item(item, depth), depth + 1),
    decreases item,
{
    reveal_with_fuel(node_within, 2);
    if depth > 0 {
        match item {
            DBusMenuItem::Submenu { children, .. } => {
                lemma_list_layout_depth(children.items@, (depth - 1) as i32);
            },
            _ => {},
        }
    }
    let inner = *layout_item(item, depth)->Variant_1;
    assert(node_within(layout_item(item, depth), depth as int) == node_within(inner, depth as int));
}

/// `lemma_item_layout_depth` for each node of a list.
pub proof fn lemma_list_layout_depth(items: Seq<DBusMenuItem>, depth: i32)
    requires
        depth >= 0,
    ensures
        nodes_within(layout_list(items, depth), depth as int),
        shows_items(items, layout_list(items, depth), depth + 1),
    decreases items,
{
    if items.len() > 0 {
        let init = items.subrange(0, items.len() - 1);
        let ws = layout_list(items, depth);
        lemma_list_layout_depth(init, depth);
        lemma_item_layout_depth(items[items.len() - 1], depth);
        assert(ws.subrange(0, ws.len() - 1) =~= layout_list(init, depth));
    }
}

/// A reply to `GetLayout(parent, depth)` with `depth >= 0` holds no node more
/// than `depth` levels below `parent`, and holds every item down to that
/// level: with `depth` 0 the node alone, with 1 its direct children, and so on.
pub proof fn lemma_layout_depth(menu: Seq<DBusMenuItem>, depth: i32)
    requires
        depth >= 0,
    ensures
        node_within(root_layout(menu, depth), depth as int),
        depth >= 1 ==> shows_items(menu, node_children(root_layout(menu, depth)), depth as int),
        depth == 0 ==> node_children(root_layout(menu, depth)).len() == 0,
        forall|item: DBusMenuItem| #[trigger] node_within(layout_item(item, depth), depth as int),
        forall|item: DBusMenuItem|
            depth >= 1 ==> match item {
                DBusMenuItem::Submenu { children, .. } => shows_items(
                    children.items@,
                    #[trigger] node_children(layout_item(item, depth)),
                    depth as int,
                ),
                _ => node_children(layout_item(item, depth)).len() == 0,
            },
{
    if depth > 0 {
        lemma_list_layout_depth(menu, (depth - 1) as i32);
    }
    assert forall|item: DBusMenuItem| #[trigger] node_within(layout_item(item, depth), depth as int) by {
        lemma_item_layout_depth(item, depth);
    }
    assert forall|item: DBusMenuItem|
        depth >= 1 ==> match item {
            DBusMenuItem::Submenu { children, .. } => shows_items(
                children.items@,
                #[trigger] node_children(layout_item(item, depth)),
                depth as int,
            ),
            _ => node_children(layout_item(item, depth)).len() == 0,
        } by {
        if depth >= 1 {
            match item {
                DBusMenuItem::Submenu { children, .. } => {
                    lemma_list_layout_depth(children.items@, (depth - 1) as i32);
                },
                _ => {},
            }
        }
    }
}

/// Laid out to a negative depth, the node of `item` shows its sub-items to
/// any number of levels.
pub proof fn lemma_item_layout_full(item: DBusMenuItem, depth: i32, levels: int)
    requires
        depth < 0,
    ensures
        shows_item(item, layout_item(item, depth), levels),
    decreases item,
{
    match item {
        DBusMenuItem::Submenu { children, .. } => {
            lemma_list_layout_full(children.items@, -1i32, levels - 1);
        },
        _ => {},
    }
}

/// `lemma_item_layout_full` for each node of a list.
pub proof fn lemma_list_layout_full(items: Seq<DBusMenuItem>, depth: i32, levels: int)
    requires
        depth < 0,
    ensures
        shows_items(items, layout_list(items, depth), levels),
    decreases items,
{
    if items.len() > 0 {
        let init = items.subrange(0, items.len() - 1);
        let ws = layout_list(items, depth);
        lemma_list_layout_full(init, depth, levels);
        lemma_item_layout_full(items[items.len() - 1], depth, levels);
        assert(ws.subrange(0, ws.len() - 1) =~= layout_list(init, depth));
    }
}

/// A reply to `GetLayout(parent, depth)` with a negative depth holds the
/// whole menu below `parent`: every item, to any number of levels.
pub proof fn lemma_layout_unlimited(menu: Seq<DBusMenuItem>, depth: i32, levels: int)
    requires
        depth < 0,
    ensures
        shows_items(menu, node_children(root_layout(menu, depth)), levels),
        forall|item: DBusMenuItem| #[trigger] shows_item(item, layout_item(item, depth), levels),
{
    lemma_list_layout_full(menu, -1i32, levels);
    assert forall|item: DBusMenuItem| #[trigger] shows_item(item, layout_item(item, depth), levels) by {
        lemma_item_layout_full(item, depth, levels);
    }
}

/// The depth for the children of an item shown to `depth`.
pub fn child_depth(depth: i32) -> (r: Option<i32>)
    ensures
        r == spec_child_depth(depth),
{
    if depth < 0 {
        Some(-1)
    } else if depth > 0 {
        Some(depth - 1)
    } else {
        None
    }
}

impl GetLayout {
    /// Writes the reply to call `serial` of `destination` asking for the
    /// layout below `parent` to `depth`, for a menu at `revision`.
    ///
    /// # Errors
    ///
    /// Returns an error if the reply cannot be encoded into `buf`.
    pub fn reply<'b>(
        buf: &'b mut [u8],
        serial: u32,
        destination: &str,
        revision: u32,
        menu: &DBusMenuList,
        parent: i32,
        depth: i32,
    ) -> (r: Result<&'b [u8], DBusError>)
        ensures
            encoded_reply(
                r,
                old(buf)@,
                final(buf)@,
                get_layout_reply_message(serial, destination.spec_bytes(), revision, menu.items@, parent, depth),
            ),
    {
        let mut e = MessageEncoder::method_return(serial, destination);
        e.signature = Some("u(ia{sv}av)");
        put_u32(&mut e.body, revision);
        let ghost first = Wire::UInt32(revision);
        proof {
            lemma_marshal_seq_one(0, first);
        }
        if parent == 0 {
            traverse_root(&mut e.body, menu, depth);
            proof {
                lemma_marshal_seq_two(0, first, root_layout(menu.items@, depth));
            }
        } else {
            match DBusMenuItem::find_in(menu, parent) {
                Some(item) => {
                    traverse_item(&mut e.body, item, depth);
                    proof {
                        lemma_marshal_seq_two(0, first, layout_item(*item, depth));
                    }
                },
                None => {},
            }
        }
        assert(e.body@ =~= marshal_seq(0, layout_body(revision, menu.items@, parent, depth)));
        encode_reply(&e, buf)
    }
}

/// Appends the root node over `list`, shown to `depth`.
fn traverse_root(body: &mut Vec<u8>, list: &DBusMenuList, depth: i32)
    ensures
        final(body)@ == old(body)@ + marshal(old(body)@.len(), root_layout(list.items@, depth)),
{
    let ghost pos = body@.len();
    put_pad(body, 8);
    let ghost p0 = body@.len();
    put_i32(body, 0);
    let ghost p1 = body@.len();
    let ghost props = root_properties(list.items@);
    let pre = Ghost(body@);
    let mark = begin_array(body, 8);
    proof {
        lemma_array_empty(pre@, 8);
    }
    if list.items.len() > 0 {
        write_property_str(body, "children-display", "submenu");
        proof {
            lemma_array_push(pre@, 8, mark.start as nat, Seq::empty(), props[0]);
            assert(Seq::<Wire>::empty().push(props[0]) =~= props);
        }
    }
    end_array_of(body, mark, pre, Ghost(8), Ghost(props));
    let ghost p2 = body@.len();
    let ghost kids = match spec_child_depth(depth) {
        Some(d) => layout_list(list.items@, d),
        None => Seq::empty(),
    };
    let pre2 = Ghost(body@);
    let mark2 = begin_array(body, 1);
    proof {
        lemma_array_empty(pre2@, 1);
    }
    match child_depth(depth) {
        Some(d) => {
            traverse_list(body, list, d);
        },
        None => {},
    }
    end_array_of(body, mark2, pre2, Ghost(1), Ghost(kids));
    proof {
        let fields = seq![Wire::Int32(0), Wire::Array(8, props), Wire::Array(1, kids)];
        lemma_marshal_seq_three(p0, Wire::Int32(0), Wire::Array(8, props), Wire::Array(1, kids));
        lemma_struct(pos, fields);
        assert(props == root_properties(list.items@));
        assert(kids == match spec_child_depth(depth) {
            Some(d) => layout_list(list.items@, d),
            None => Seq::<Wire>::empty(),
        });
        assert(root_layout(list.items@, depth)->Struct_0 =~= fields);
        assert(body@ =~= old(body)@ + marshal(pos, root_layout(list.items@, depth)));
    }
}

/// Appends the nodes of `list`, each shown to `depth`.
fn traverse_list(body: &mut Vec<u8>, list: &DBusMenuList, depth: i32)
    ensures
        final(body)@ == old(body)@ + marshal_seq(old(body)@.len(), layout_list(list.items@, depth)),
    decreases list.items@,
{
    let ghost pos = body@.len();
    let n = list.items.len();
    let mut i: usize = 0;
    proof {
        assert(list.items@.subrange(0, 0).len() == 0);
        assert(marshal_seq(pos, layout_list(list.items@.subrange(0, 0), depth)) =~= Seq::<u8>::empty());
        assert(body@ =~= old(body)@ + marshal_seq(pos, layout_list(list.items@.subrange(0, 0), depth)));
    }
    while i < n
        invariant
            n == list.items@.len(),
            i <= n,
            pos == old(body)@.len(),
            body@ == old(body)@ + marshal_seq(pos, layout_list(list.items@.subrange(0, i as int), depth)),
        decreases n - i,
    {
        let item = &list.items[i];
        let ghost before = layout_list(list.items@.subrange(0, i as int), depth);
        proof {
            assert(decreases_to!(list.items@ => list.items@[i as int]));
        }
        traverse_item(body, item, depth);
        proof {
            let next = list.items@.subrange(0, i + 1);
            assert(next.subrange(0, next.len() - 1) =~= list.items@.subrange(0, i as int));
            assert(layout_list(next, depth) == before.push(layout_item(*item, depth)));
            lemma_marshal_seq_push(pos, before, layout_item(*item, depth));
        }
        i = i + 1;
    }
    proof {
        assert(list.items@.subrange(0, n as int) =~= list.items@);
    }
}

/// Appends the node for `item`, shown to `depth`.
fn traverse_item(body: &mut Vec<u8>, item: &DBusMenuItem, depth: i32)
    ensures
        final(body)@ == old(body)@ + marshal(old(body)@.len(), layout_item(*item, depth)),
    decreases *item,
{
    let ghost pos = body@.len();
    put_sig(body, "(ia{sv}av)");
    let ghost ps = body@.len();
    put_pad(body, 8);
    let ghost p0 = body@.len();
    put_i32(body, item.id());
    item.encode(body);
    let ghost kids = match spec_child_depth(depth) {
        Some(d) => match item {
            DBusMenuItem::Submenu { children, .. } => layout_list(children.items@, d),
            _ => Seq::empty(),
        },
        None => Seq::empty(),
    };
    let pre = Ghost(body@);
    let mark = begin_array(body, 1);
    proof {
        lemma_array_empty(pre@, 1);
    }
    match child_depth(depth) {
        Some(d) => {
            if let DBusMenuItem::Submenu { children, .. } = item {
                traverse_list(body, children, d);
            }
        },
        None => {},
    }
    end_array_of(body, mark, pre, Ghost(1), Ghost(kids));
    proof {
        let props = Wire::Array(8, item_properties(*item));
        let fields = seq![Wire::Int32(item.spec_id()), props, Wire::Array(1, kids)];
        lemma_marshal_seq_three(p0, Wire::Int32(item.spec_id()), props, Wire::Array(1, kids));
        lemma_struct(ps, fields);
        lemma_variant(pos, layout_sig(), Wire::Struct(fields));
        assert(body@ =~= old(body)@ + marshal(pos, layout_item(*item, depth)));
    }
}

} // verus!
