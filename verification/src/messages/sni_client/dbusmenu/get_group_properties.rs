//! `GetGroupProperties`: properties of chosen items and of their descendants.
use super::get_layout::root_properties;
use super::item::{find_in_items, item_properties, write_property_str, DBusMenuItem, DBusMenuList};
use crate::encoder::{
    array_head, begin_array, encode_reply, encoded_reply, end_array_of, lemma_array_empty,
    lemma_array_push, lemma_marshal_seq_one, lemma_marshal_seq_two, message, put_i32, put_pad,
    reply_header, MessageEncoder,
};
use crate::error::DBusError;
use crate::incoming::{IncomingArrayValue, IncomingValue};
use crate::wire::{lemma_marshal_seq_concat, lemma_struct, marshal_seq, Wire};
use vstd::prelude::*;
use vstd::string::StringSliceAdditionalSpecFns;

verus! {

/// Replies to `GetGroupProperties` requests.
pub struct GetGroupProperties;

/// The `(ia{sv})` entry of one item: its id and properties.
pub open spec fn property_entry_of(item: DBusMenuItem) -> Wire {
    Wire::Struct(seq![Wire::Int32(item.spec_id()), Wire::Array(8, item_properties(item))])
}

/// Entries for `item` and all items below it, each before its children.
pub open spec fn item_entries(item: DBusMenuItem) -> Seq<Wire>
    decreases item,
{
    seq![property_entry_of(item)] + match item {
        DBusMenuItem::Submenu { children, .. } => list_entries(children.items@),
        _ => Seq::empty(),
    }
}

/// Entries for the items of a list and all items below them.
pub open spec fn list_entries(items: Seq<DBusMenuItem>) -> Seq<Wire>
    decreases items,
{
    if items.len() == 0 {
        Seq::empty()
    } else {
        list_entries(items.subrange(0, items.len() - 1)) + item_entries(items[items.len() - 1])
    }
}

/// Entries for the root (id 0) and every item.
pub open spec fn root_entries(items: Seq<DBusMenuItem>) -> Seq<Wire> {
    seq![Wire::Struct(seq![Wire::Int32(0), Wire::Array(8, root_properties(items))])] + list_entries(items)
}

/// Entries for one requested id: the root, an item found by id, or nothing.
pub open spec fn id_entries(menu: Seq<DBusMenuItem>, id: i32) -> Seq<Wire> {
    if id == 0 {
        root_entries(menu)
    } else {
        match find_in_items(menu, id) {
            Some(item) => item_entries(item),
            None => Seq::empty(),
        }
    }
}

/// Entries for the requested ids in order; `None` if an id is not an `i32`.
pub open spec fn group_entries(menu: Seq<DBusMenuItem>, ids: Seq<IncomingValue>) -> Option<Seq<Wire>>
    decreases ids.len(),
{
    if ids.len() == 0 {
        Some(Seq::empty())
    } else {
        match group_entries(menu, ids.subrange(0, ids.len() - 1)) {
            None => None,
            Some(prev) => match ids[ids.len() - 1] {
                IncomingValue::Int32(id) => Some(prev + id_entries(menu, id)),
                _ => None,
            },
        }
    }
}

/// Entries of the reply: all of them when no id is asked for.
pub open spec fn requested_entries(menu: Seq<DBusMenuItem>, ids: Seq<IncomingValue>) -> Option<Seq<Wire>> {
    if ids.len() == 0 {
        Some(root_entries(menu))
    } else {
        group_entries(menu, ids)
    }
}

/// The reply carrying `entries`.
pub open spec fn group_properties_reply_message(serial: u32, destination: Seq<u8>, entries: Seq<Wire>) -> Seq<u8> {
    message(reply_header(serial, destination, "a(ia{sv})".spec_bytes()), seq![Wire::Array(8, entries)])
}

impl GetGroupProperties {
    /// Writes the reply to call `serial` of `destination` asking for the
    /// properties of the items `ids` (all items when empty).
    ///
    /// # Errors
    ///
    /// Returns `WrongValue` if an id is not an `i32`, and an error if the
    /// reply cannot be encoded into `buf`.
    pub fn reply<'b>(
        buf: &'b mut [u8],
        serial: u32,
        destination: &str,
        menu: &DBusMenuList,
        ids: IncomingArrayValue<'_>,
    ) -> (r: Result<&'b [u8], DBusError>)
        ensures
            match requested_entries(menu.items@, ids.items@) {
                Some(entries) => encoded_reply(
                    r,
                    old(buf)@,
                    final(buf)@,
                    group_properties_reply_message(serial, destination.spec_bytes(), entries),
                ),
                None => r == Err::<&[u8], DBusError>(DBusError::WrongValue) && final(buf)@ == old(buf)@,
            },
    {
        let mut e = MessageEncoder::method_return(serial, destination);
        e.signature = Some("a(ia{sv})");
        let pre = Ghost(e.body@);
        let mark = begin_array(&mut e.body, 8);
        let ghost start: nat = mark.start as nat;
        proof {
            lemma_array_empty(pre@, 8);
        }
        let ghost entries: Seq<Wire>;
        if ids.is_empty() {
            traverse_root_properties(&mut e.body, menu);
            proof {
                entries = root_entries(menu.items@);
                lemma_marshal_seq_concat(start, Seq::empty(), entries);
                assert(Seq::<Wire>::empty() + entries =~= entries);
            }
        } else {
            let n = ids.items.len();
            let mut i: usize = 0;
            proof {
                entries = Seq::empty();
                assert(ids.items@.subrange(0, 0) =~= Seq::<IncomingValue>::empty());
            }
            while i < n
                invariant
                    n == ids.items@.len(),
                    i <= n,
                    start == pre@.len() + array_head(pre@.len(), 8).len(),
                    group_entries(menu.items@, ids.items@.subrange(0, i as int)) == Some(entries),
                    e.body@ == pre@ + array_head(pre@.len(), 8) + marshal_seq(start, entries),
                    e.header() == reply_header(serial, destination.spec_bytes(), "a(ia{sv})".spec_bytes()),
                decreases n - i,
            {
                let ghost next = ids.items@.subrange(0, i + 1);
                proof {
                    assert(next.subrange(0, next.len() - 1) =~= ids.items@.subrange(0, i as int));
                }
                let id = match ids.items[i] {
                    IncomingValue::Int32(id) => id,
                    _ => {
                        proof {
                            lemma_group_entries_fail(menu.items@, ids.items@, (i + 1) as nat);
                        }
                        return Err(DBusError::WrongValue);
                    },
                };
                let ghost more = id_entries(menu.items@, id);
                if id == 0 {
                    traverse_root_properties(&mut e.body, menu);
                } else {
                    match DBusMenuItem::find_in(menu, id) {
                        Some(item) => {
                            traverse_item_properties(&mut e.body, item);
                        },
                        None => {
                            assert(marshal_seq(e.body@.len(), more) =~= Seq::<u8>::empty());
                        },
                    }
                }
                proof {
                    lemma_marshal_seq_concat(start, entries, more);
                    entries = entries + more;
                }
                i = i + 1;
            }
            proof {
                assert(ids.items@.subrange(0, n as int) =~= ids.items@);
            }
        }
        end_array_of(&mut e.body, mark, pre, Ghost(8), Ghost(entries));
        proof {
            lemma_marshal_seq_one(0, Wire::Array(8, entries));
        }
        encode_reply(&e, buf)
    }
}

/// Once an id is not an `i32`, the ids have no entries.
proof fn lemma_group_entries_fail(menu: Seq<DBusMenuItem>, ids: Seq<IncomingValue>, k: nat)
    requires
        0 < k <= ids.len(),
        !(ids[k - 1] is Int32),
    ensures
        group_entries(menu, ids) is None,
    decreases ids.len(),
{
    if k == ids.len() {
    } else {
        let shorter = ids.subrange(0, ids.len() - 1);
        assert(shorter[k - 1] == ids[k - 1]);
        lemma_group_entries_fail(menu, shorter, k);
    }
}

/// Appends the entries of the root and of every item of `list`.
fn traverse_root_properties(body: &mut Vec<u8>, list: &DBusMenuList)
    ensures
        final(body)@ == old(body)@ + marshal_seq(old(body)@.len(), root_entries(list.items@)),
{
    let ghost pos = body@.len();
    put_pad(body, 8);
    let ghost p0 = body@.len();
    put_i32(body, 0);
    let ghost props = root_properties(list.items@);
    let pre = Ghost(body@);
    let mark = begin_array(body, 8);
    proof {
        lemma_array_empty(pre@, 8);
    }
    if list.items.len() > 0 {
        write_property_str(body, "children-display", "submenu");
        proof {
            lemma_array_push(pre@, 8, mark.start as nat, Seq::empty(), props[0]);
            assert(Seq::<Wire>::empty().push(props[0]) =~= props);
        }
    }
    end_array_of(body, mark, pre, Ghost(8), Ghost(props));
    let ghost root = Wire::Struct(seq![Wire::Int32(0), Wire::Array(8, props)]);
    proof {
        lemma_marshal_seq_two(p0, Wire::Int32(0), Wire::Array(8, props));
        lemma_struct(pos, seq![Wire::Int32(0), Wire::Array(8, props)]);
        lemma_marshal_seq_one(pos, root);
    }
    let ghost mid = body@.len();
    traverse_list_properties(body, list);
    proof {
        lemma_marshal_seq_concat(pos, seq![root], list_entries(list.items@));
        assert(root_entries(list.items@) =~= seq![root] + list_entries(list.items@));
    }
}

/// Appends the entries of every item of `list`.
fn traverse_list_properties(body: &mut Vec<u8>, list: &DBusMenuList)
    ensures
        final(body)@ == old(body)@ + marshal_seq(old(body)@.len(), list_entries(list.items@)),
    decreases list.items@,
{
    let ghost pos = body@.len();
    let n = list.items.len();
    let mut i: usize = 0;
    proof {
        assert(list.items@.subrange(0, 0).len() == 0);
        assert(marshal_seq(pos, list_entries(list.items@.subrange(0, 0))) =~= Seq::<u8>::empty());
        assert(body@ =~= old(body)@ + marshal_seq(pos, list_entries(list.items@.subrange(0, 0))));
    }
    while i < n
        invariant
            n == list.items@.len(),
            i <= n,
            pos == old(body)@.len(),
            body@ == old(body)@ + marshal_seq(pos, list_entries(list.items@.subrange(0, i as int))),
        decreases n - i,
    {
        let item = &list.items[i];
        let ghost before = list_entries(list.items@.subrange(0, i as int));
        proof {
            assert(decreases_to!(list.items@ => list.items@[i as int]));
        }
        traverse_item_properties(body, item);
        proof {
            let next = list.items@.subrange(0, i + 1);
            assert(next.subrange(0, next.len() - 1) =~= list.items@.subrange(0, i as int));
            assert(list_entries(next) == before + item_entries(*item));
            lemma_marshal_seq_concat(pos, before, item_entries(*item));
        }
        i = i + 1;
    }
    proof {
        assert(list.items@.subrange(0, n as int) =~= list.items@);
    }
}

/// Appends the entries of `item` and of the items below it.
fn traverse_item_properties(body: &mut Vec<u8>, item: &DBusMenuItem)
    ensures
        final(body)@ == old(body)@ + marshal_seq(old(body)@.len(), item_entries(*item)),
    decreases *item,
{
    let ghost pos = body@.len();
    put_pad(body, 8);
    let ghost p0 = body@.len();
    put_i32(body, item.id());
    item.encode(body);
    let ghost first = property_entry_of(*item);
    proof {
        lemma_marshal_seq_two(p0, Wire::Int32(item.spec_id()), Wire::Array(8, item_properties(*item)));
        lemma_struct(pos, seq![Wire::Int32(item.spec_id()), Wire::Array(8, item_properties(*item))]);
        lemma_marshal_seq_one(pos, first);
    }
    let ghost rest = match item {
        DBusMenuItem::Submenu { children, .. } => list_entries(children.items@),
        _ => Seq::empty(),
    };
    if let DBusMenuItem::Submenu { children, .. } = item {
        traverse_list_properties(body, children);
    } else {
        assert(marshal_seq(body@.len(), rest) =~= Seq::<u8>::empty());
    }
    proof {
        lemma_marshal_seq_concat(pos, seq![first], rest);
        assert(item_entries(*item) =~= seq![first] + rest);
    }
}

} // verus!
