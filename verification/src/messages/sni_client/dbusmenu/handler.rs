//! Handling requests to a `com.canonical.dbusmenu` object.
use super::data::DBusMenuData;
use super::event::{event_kind, DBusMenuEvent, DBusMenuEventKind};
use super::get_group_properties::{
    group_properties_reply_message, requested_entries, GetGroupProperties,
};
use super::get_layout::{get_layout_reply_message, GetLayout};
use super::item::DBusMenuList;
use super::property::{property_entry, property_variant, Property};
use super::request::{menu_request, Request};
use crate::encoder::{
    array_head, begin_array, encode_reply, encoded_reply, end_array_of, lemma_array_empty, lemma_message_len,
    lemma_array_push, lemma_marshal_seq_one, lemma_marshal_seq_two, message, message_bytes, put_bool,
    put_i32, reply_header, written_prefix, MessageEncoder,
};
use crate::error::{DBusError, EncodeError};
use crate::incoming::{
    arg_i32, arg_is_variant, arg_str, arg_u32, i32_at, str_at, u32_at, variant_at,
    IncomingArrayValue, IncomingMessage, IncomingValue,
};
use crate::messages::empty_method_return::empty_method_return_message;
use crate::messages::error_no_method::error_no_method_message;
use crate::messages::ErrorNoMethod;
use crate::wire::{lemma_marshal_seq_push, marshal, marshal_seq, pad_len, Wire};
use vstd::prelude::*;
use vstd::string::StringSliceAdditionalSpecFns;

verus! {

/// Handles a `com.canonical.dbusmenu` object
pub struct StatusNotifierMenuHandler;

/// Reply to `GetAll`: every menu property.
pub open spec fn menu_properties_reply_message(serial: u32, destination: Seq<u8>) -> Seq<u8> {
    message(
        reply_header(serial, destination, "a{sv}".spec_bytes()),
        seq![
            Wire::Array(
                8,
                seq![
                    property_entry(Property::Version),
                    property_entry(Property::TextDirection),
                    property_entry(Property::Status),
                    property_entry(Property::IconThemePath),
                ],
            ),
        ],
    )
}

/// Reply to `Get` of one property.
pub open spec fn property_reply_message(serial: u32, destination: Seq<u8>, p: Property) -> Seq<u8> {
    message(reply_header(serial, destination, "v".spec_bytes()), seq![property_variant(p)])
}

/// Reply to `AboutToShow`: whether the host should fetch the layout again.
pub open spec fn about_to_show_reply_message(serial: u32, destination: Seq<u8>, need_update: bool) -> Seq<u8> {
    message(reply_header(serial, destination, "b".spec_bytes()), seq![Wire::Bool(need_update)])
}

/// Reply to `AboutToShowGroup`: the ids that need an update, and no id errors.
pub open spec fn about_to_show_group_reply_message(serial: u32, destination: Seq<u8>, updates: Seq<Wire>) -> Seq<u8> {
    message(
        reply_header(serial, destination, "aiai".spec_bytes()),
        seq![Wire::Array(4, updates), Wire::Array(4, Seq::empty())],
    )
}

/// Reply to `EventGroup`: no id errors.
pub open spec fn event_group_reply_message(serial: u32, destination: Seq<u8>) -> Seq<u8> {
    message(reply_header(serial, destination, "ai".spec_bytes()), seq![Wire::Array(4, Seq::empty())])
}

/// Offset in the `AboutToShowGroup` reply to call `serial` of `destination`
/// just past its `n`-th update: the header, the length of the update array,
/// then `n` ids of four bytes.
pub open spec fn group_update_end(serial: u32, destination: Seq<u8>, n: nat) -> nat {
    message_bytes(reply_header(serial, destination, "aiai".spec_bytes()), Seq::empty()).len() + 4 + 4 * n
}

/// Ids written one after another from a multiple of 4 take four bytes each.
proof fn lemma_ids_len(pos: nat, ids: Seq<Wire>)
    requires
        pos % 4 == 0,
        forall|k: int| 0 <= k < ids.len() ==> ids[k] is Int32,
    ensures
        marshal_seq(pos, ids).len() == 4 * ids.len(),
    decreases ids.len(),
{
    if ids.len() > 0 {
        let init = ids.subrange(0, ids.len() - 1);
        lemma_ids_len(pos, init);
        assert(init.push(ids.last()) =~= ids);
        lemma_marshal_seq_push(pos, init, ids.last());
        vstd::bytes::lemma_auto_spec_u32_to_from_le_bytes();
        assert((pos + 4 * init.len()) % 4 == 0);
    }
}

/// The `AboutToShowGroup` reply listing `updates` ends four bytes (the empty
/// array of id errors) after the end of its last update.
pub proof fn lemma_group_reply_len(serial: u32, destination: Seq<u8>, updates: Seq<Wire>)
    requires
        forall|k: int| 0 <= k < updates.len() ==> updates[k] is Int32,
    ensures
        about_to_show_group_reply_message(serial, destination, updates).len() == group_update_end(
            serial,
            destination,
            updates.len(),
        ) + 4,
{
    let h = reply_header(serial, destination, "aiai".spec_bytes());
    let a = Wire::Array(4, updates);
    let b = Wire::Array(4, Seq::<Wire>::empty());
    lemma_marshal_seq_two(0, a, b);
    lemma_ids_len(4, updates);
    vstd::bytes::lemma_auto_spec_u32_to_from_le_bytes();
    assert(pad_len(4, 4) == 0);
    assert(marshal(0, a).len() == 4 + 4 * updates.len());
    let end: nat = 4 + 4 * updates.len();
    assert(end % 4 == 0);
    assert((end + 4) % 4 == 0);
    assert(pad_len(end, 4) == 0);
    assert(pad_len(end + 4, 4) == 0);
    assert(marshal_seq(end + 4, Seq::<Wire>::empty()) =~= Seq::<u8>::empty());
    assert(marshal(marshal(0, a).len(), b).len() == 4);
    lemma_message_len(h, marshal_seq(0, seq![a, b]));
}

/// Asking `data` about each id of `ids` in order, with room for `room` more
/// updates: the state afterwards, the ids that need an update, in order, and
/// what stopped the walk: `WrongValue` at an id that is not an `i32`,
/// `BufferTooSmall` at an update that has no room left (`data` has then been
/// asked about its id), or nothing.
pub open spec fn ask_within<D: DBusMenuData>(data: D, ids: Seq<IncomingValue>, room: int) -> (D, Seq<Wire>, Option<DBusError>)
    decreases ids.len(),
{
    if ids.len() == 0 {
        (data, Seq::empty(), None)
    } else {
        match ids[0] {
            IncomingValue::Int32(id) => {
                let next = data.after_about_to_show(id);
                if !data.spec_about_to_show(id) {
                    ask_within(next, ids.drop_first(), room)
                } else if room <= 0 {
                    (next, Seq::empty(), Some(DBusError::EncodeError(EncodeError::BufferTooSmall)))
                } else {
                    let (after, rest, stop) = ask_within(next, ids.drop_first(), room - 1);
                    (after, seq![Wire::Int32(id)] + rest, stop)
                }
            },
            _ => (data, Seq::empty(), Some(DBusError::WrongValue)),
        }
    }
}

/// `AboutToShowGroup` for a reply buffer of `buf_len` bytes: nothing is
/// asked when not even the start of the update array fits; else `data` is
/// asked about the ids while their updates fit (see `ask_within`).
pub open spec fn group_ask<D: DBusMenuData>(
    data: D,
    ids: Seq<IncomingValue>,
    serial: u32,
    destination: Seq<u8>,
    buf_len: nat,
) -> (D, Seq<Wire>, Option<DBusError>) {
    let first = group_update_end(serial, destination, 0);
    if buf_len < first {
        (data, Seq::empty(), Some(DBusError::EncodeError(EncodeError::BufferTooSmall)))
    } else {
        ask_within(data, ids, (buf_len - first) / 4)
    }
}

/// Whether an event of `EventGroup` is a struct of id, event id, data and timestamp.
pub open spec fn well_formed_event(v: IncomingValue) -> bool {
    match v {
        IncomingValue::Struct(s) => arg_i32(s.fields@, 0) is Some && arg_str(s.fields@, 1) is Some
            && arg_is_variant(s.fields@, 2) && arg_u32(s.fields@, 3) is Some,
        _ => false,
    }
}

/// The event that a well-formed element of `EventGroup` carries.
pub open spec fn group_event<'a>(v: IncomingValue<'a>) -> DBusMenuEvent<'a> {
    let f = v->Struct_0.fields@;
    DBusMenuEvent {
        id: arg_i32(f, 0)->Some_0,
        kind: event_kind(arg_str(f, 1)->Some_0),
        timestamp: arg_u32(f, 3)->Some_0,
    }
}

/// `data` after the events of `events` are handed to it in order, up to the
/// first that is not well formed.
pub open spec fn deliver_events<D: DBusMenuData>(data: D, events: Seq<IncomingValue>) -> D
    decreases events.len(),
{
    if events.len() == 0 || !well_formed_event(events[0]) {
        data
    } else {
        deliver_events(data.after_event(group_event(events[0])), events.drop_first())
    }
}

/// The menu state after request `req` from `sender`, answered into a buffer
/// of `buf_len` bytes: `AboutToShow` asks about the id, `AboutToShowGroup`
/// about each id in order while the updates fit (see `group_ask`), `Event`
/// hands over the event, `EventGroup` each event in order; the other requests
/// leave the state alone.
pub open spec fn menu_state_after<D: DBusMenuData>(
    req: Request,
    data: D,
    serial: u32,
    sender: Seq<u8>,
    buf_len: nat,
) -> D {
    match req {
        Request::AboutToShow { id } => data.after_about_to_show(id),
        Request::AboutToShowGroup { ids } => group_ask(data, ids.items@, serial, sender, buf_len).0,
        Request::Event { event } => data.after_event(event),
        Request::EventGroup { events } => deliver_events(data, events.items@),
        _ => data,
    }
}

/// Outcome of a handler that writes `msg` into a buffer, with encoding errors as `DBusError`.
pub open spec fn replied(
    r: Result<Option<&[u8]>, DBusError>,
    before: Seq<u8>,
    after: Seq<u8>,
    msg: Seq<u8>,
) -> bool {
    match r {
        Ok(Some(out)) => encoded_reply(Ok(out), before, after, msg),
        Ok(None) => false,
        Err(e) => encoded_reply(Err(e), before, after, msg),
    }
}

/// The reply to request `req` from `sender`, for the menu state `data`
/// before the request.
pub open spec fn menu_replied<'a, D: DBusMenuData>(
    r: Result<Option<&[u8]>, DBusError>,
    before: Seq<u8>,
    after: Seq<u8>,
    req: Request<'a>,
    serial: u32,
    sender: Seq<u8>,
    data: D,
) -> bool {
    let revision = data.spec_revision();
    let menu = data.spec_menu();
    match req {
        Request::GetAllProperties => replied(r, before, after, menu_properties_reply_message(serial, sender)),
        Request::GetProperty { property } => replied(r, before, after, property_reply_message(serial, sender, property)),
        Request::GetLayout { parent, depth } => replied(
            r,
            before,
            after,
            get_layout_reply_message(serial, sender, revision, menu, parent, depth),
        ),
        Request::GetGroupProperties { ids } => match requested_entries(menu, ids.items@) {
            Some(entries) => replied(r, before, after, group_properties_reply_message(serial, sender, entries)),
            None => replied(r, before, after, error_no_method_message(sender, serial)),
        },
        Request::AboutToShow { id } => replied(
            r,
            before,
            after,
            about_to_show_reply_message(serial, sender, data.spec_about_to_show(id)),
        ),
        Request::AboutToShowGroup { ids } => {
            let (_, updates, stop) = group_ask(data, ids.items@, serial, sender, before.len());
            match stop {
                None => replied(r, before, after, about_to_show_group_reply_message(serial, sender, updates)),
                Some(DBusError::WrongValue) => replied(r, before, after, error_no_method_message(sender, serial)),
                Some(e) => r == Err::<Option<&[u8]>, DBusError>(e) && after == before,
            }
        },
        Request::Event { .. } => replied(r, before, after, empty_method_return_message(sender, serial)),
        Request::EventGroup { events } => if forall|k: int| 0 <= k < events.items@.len() ==> well_formed_event(#[trigger] events.items@[k]) {
            replied(r, before, after, event_group_reply_message(serial, sender))
        } else {
            replied(r, before, after, error_no_method_message(sender, serial))
        },
    }
}

/// Writes a method return to call `serial` of `destination` whose body is
/// `body`, of the given signature (none for an empty body).
pub fn reply<'b>(
    buf: &'b mut [u8],
    serial: u32,
    destination: &str,
    signature: Option<&str>,
    body: Vec<u8>,
) -> (r: Result<&'b [u8], DBusError>)
    ensures
        encoded_reply(
            r,
            old(buf)@,
            final(buf)@,
            crate::encoder::message_bytes(
                reply_header(
                    serial,
                    destination.spec_bytes(),
                    match signature {
                        Some(s) => s.spec_bytes(),
                        None => Seq::empty(),
                    },
                ),
                body@,
            ),
        ),
{
    let mut e = MessageEncoder::method_return(serial, destination);
    e.signature = signature;
    e.body = body;
    encode_reply(&e, buf)
}

/// Writes the reply to `GetAll`.
pub fn get_all_properties_reply<'b>(buf: &'b mut [u8], serial: u32, destination: &str) -> (r: Result<&'b [u8], DBusError>)
    ensures
        encoded_reply(r, old(buf)@, final(buf)@, menu_properties_reply_message(serial, destination.spec_bytes())),
{
    let mut body: Vec<u8> = Vec::new();
    let pre = Ghost(body@);
    let mark = begin_array(&mut body, 8);
    let ghost start: nat = mark.start as nat;
    proof {
        lemma_array_empty(pre@, 8);
    }
    Property::Version.encode_key_value(&mut body);
    proof {
        lemma_array_push(pre@, 8, start, Seq::empty(), property_entry(Property::Version));
    }
    let ghost e1 = Seq::<Wire>::empty().push(property_entry(Property::Version));
    Property::TextDirection.encode_key_value(&mut body);
    proof {
        lemma_array_push(pre@, 8, start, e1, property_entry(Property::TextDirection));
    }
    let ghost e2 = e1.push(property_entry(Property::TextDirection));
    Property::Status.encode_key_value(&mut body);
    proof {
        lemma_array_push(pre@, 8, start, e2, property_entry(Property::Status));
    }
    let ghost e3 = e2.push(property_entry(Property::Status));
    Property::IconThemePath.encode_key_value(&mut body);
    proof {
        lemma_array_push(pre@, 8, start, e3, property_entry(Property::IconThemePath));
    }
    let ghost e4 = e3.push(property_entry(Property::IconThemePath));
    end_array_of(&mut body, mark, pre, Ghost(8), Ghost(e4));
    proof {
        assert(e4 =~= seq![
            property_entry(Property::Version),
            property_entry(Property::TextDirection),
            property_entry(Property::Status),
            property_entry(Property::IconThemePath),
        ]);
        lemma_marshal_seq_one(0, Wire::Array(8, e4));
    }
    reply(buf, serial, destination, Some("a{sv}"), body)
}

/// Writes the reply to `Get` of `property`.
pub fn get_property_reply<'b>(buf: &'b mut [u8], serial: u32, destination: &str, property: Property) -> (r: Result<&'b [u8], DBusError>)
    ensures
        encoded_reply(r, old(buf)@, final(buf)@, property_reply_message(serial, destination.spec_bytes(), property)),
{
    let mut body: Vec<u8> = Vec::new();
    property.encode_value(&mut body);
    proof {
        lemma_marshal_seq_one(0, property_variant(property));
    }
    reply(buf, serial, destination, Some("v"), body)
}

/// Writes the reply to `AboutToShow`.
pub fn about_to_show_reply<'b>(buf: &'b mut [u8], serial: u32, destination: &str, need_update: bool) -> (r: Result<&'b [u8], DBusError>)
    ensures
        encoded_reply(r, old(buf)@, final(buf)@, about_to_show_reply_message(serial, destination.spec_bytes(), need_update)),
{
    let mut body: Vec<u8> = Vec::new();
    put_bool(&mut body, need_update);
    proof {
        lemma_marshal_seq_one(0, Wire::Bool(need_update));
    }
    reply(buf, serial, destination, Some("b"), body)
}

/// Writes the reply to `EventGroup`.
pub fn event_group_reply<'b>(buf: &'b mut [u8], serial: u32, destination: &str) -> (r: Result<&'b [u8], DBusError>)
    ensures
        encoded_reply(r, old(buf)@, final(buf)@, event_group_reply_message(serial, destination.spec_bytes())),
{
    let mut body: Vec<u8> = Vec::new();
    let pre = Ghost(body@);
    let mark = begin_array(&mut body, 4);
    proof {
        lemma_array_empty(pre@, 4);
    }
    end_array_of(&mut body, mark, pre, Ghost(4), Ghost(Seq::empty()));
    proof {
        lemma_marshal_seq_one(0, Wire::Array(4, Seq::empty()));
    }
    reply(buf, serial, destination, Some("ai"), body)
}

/// Writes the empty reply to `Event`.
pub fn empty_reply<'b>(buf: &'b mut [u8], serial: u32, destination: &str) -> (r: Result<&'b [u8], DBusError>)
    ensures
        encoded_reply(r, old(buf)@, final(buf)@, empty_method_return_message(destination.spec_bytes(), serial)),
{
    let body: Vec<u8> = Vec::new();
    assert(body@ =~= marshal_seq(0, Seq::<Wire>::empty()));
    reply(buf, serial, destination, None, body)
}

/// Asking about the ids from `i` on, when the `i`-th is an `i32`.
proof fn lemma_ask_step<D: DBusMenuData>(data: D, ids: Seq<IncomingValue>, i: int, id: i32, room: int)
    requires
        0 <= i < ids.len(),
        ids[i] == IncomingValue::Int32(id),
    ensures
        ask_within(data, ids.skip(i), room) == ({
            let next = data.after_about_to_show(id);
            if !data.spec_about_to_show(id) {
                ask_within(next, ids.skip(i + 1), room)
            } else if room <= 0 {
                (next, Seq::empty(), Some(DBusError::EncodeError(EncodeError::BufferTooSmall)))
            } else {
                let (after, rest, stop) = ask_within(next, ids.skip(i + 1), room - 1);
                (after, seq![Wire::Int32(id)] + rest, stop)
            }
        }),
{
    assert(ids.skip(i)[0] == ids[i]);
    assert(ids.skip(i).drop_first() =~= ids.skip(i + 1));
}

/// Asks `data` about each id, in order, and appends the ids that need an
/// update to the array started at `start`, while there is room for `room`
/// more of them.
///
/// # Errors
///
/// Returns `WrongValue` at the first id that is not an `i32`, and
/// `BufferTooSmall` at the first update that has no room; `data` has then
/// been asked about the ids before it, and about that update's id.
pub fn about_to_show_group<D: DBusMenuData>(
    ids: IncomingArrayValue<'_>,
    data: &mut D,
    room: usize,
    body: &mut Vec<u8>,
    Ghost(pre): Ghost<Seq<u8>>,
    Ghost(start): Ghost<nat>,
) -> (r: Result<(), DBusError>)
    requires
        start == pre.len() + array_head(pre.len(), 4).len(),
        old(body)@ == pre + array_head(pre.len(), 4) + marshal_seq(start, Seq::<Wire>::empty()),
    ensures
        ({
            let (after, updates, stop) = ask_within(*old(data), ids.items@, room as int);
            &&& *final(data) == after
            &&& r == match stop {
                None => Ok::<(), DBusError>(()),
                Some(e) => Err(e),
            }
            &&& final(body)@ == pre + array_head(pre.len(), 4) + marshal_seq(start, updates)
        }),
{
    let ghost orig = *data;
    let ghost total = ask_within(orig, ids.items@, room as int);
    let n = ids.items.len();
    let mut i: usize = 0;
    let mut left: usize = room;
    let ghost done: Seq<Wire> = Seq::empty();
    proof {
        assert(ids.items@.skip(0) =~= ids.items@);
        assert(Seq::<Wire>::empty() + total.1 =~= total.1);
    }
    while i < n
        invariant
            orig == *old(data),
            total == ask_within(orig, ids.items@, room as int),
            n == ids.items@.len(),
            i <= n,
            start == pre.len() + array_head(pre.len(), 4).len(),
            total.0 == ask_within(*data, ids.items@.skip(i as int), left as int).0,
            total.1 == done + ask_within(*data, ids.items@.skip(i as int), left as int).1,
            total.2 == ask_within(*data, ids.items@.skip(i as int), left as int).2,
            body@ == pre + array_head(pre.len(), 4) + marshal_seq(start, done),
        decreases n - i,
    {
        let id = match ids.items[i] {
            IncomingValue::Int32(id) => id,
            _ => {
                proof {
                    assert(ids.items@.skip(i as int)[0] == ids.items@[i as int]);
                    assert(done + Seq::<Wire>::empty() =~= done);
                }
                return Err(DBusError::WrongValue);
            },
        };
        let ghost before = *data;
        proof {
            lemma_ask_step(before, ids.items@, i as int, id, left as int);
        }
        let update = data.about_to_show(id);
        if update {
            if left == 0 {
                assert(done + Seq::<Wire>::empty() =~= done);
                return Err(DBusError::EncodeError(EncodeError::BufferTooSmall));
            }
            let ghost rest = ask_within(*data, ids.items@.skip(i + 1), left - 1).1;
            put_i32(body, id);
            proof {
                lemma_array_push(pre, 4, start, done, Wire::Int32(id));
                assert(done + (seq![Wire::Int32(id)] + rest) =~= done.push(Wire::Int32(id)) + rest);
                done = done.push(Wire::Int32(id));
            }
            left = left - 1;
        }
        i = i + 1;
    }
    proof {
        assert(ids.items@.skip(n as int) =~= Seq::<IncomingValue>::empty());
        assert(done + Seq::<Wire>::empty() =~= done);
    }
    Ok(())
}

/// Writes the reply to `AboutToShowGroup`, asking `data` about each id while
/// the updates fit into `buf`, as `group_ask` says.
///
/// # Errors
///
/// Returns `WrongValue` if an id is not an `i32`, and an error if the reply
/// cannot be encoded into `buf`.
pub fn about_to_show_group_reply<'b, D: DBusMenuData>(
    buf: &'b mut [u8],
    serial: u32,
    destination: &str,
    ids: IncomingArrayValue<'_>,
    data: &mut D,
) -> (r: Result<&'b [u8], DBusError>)
    ensures
        ({
            let (after, updates, stop) = group_ask(
                *old(data),
                ids.items@,
                serial,
                destination.spec_bytes(),
                old(buf)@.len(),
            );
            &&& *final(data) == after
            &&& match stop {
                None => encoded_reply(
                    r,
                    old(buf)@,
                    final(buf)@,
                    about_to_show_group_reply_message(serial, destination.spec_bytes(), updates),
                ),
                Some(e) => r == Err::<&[u8], DBusError>(e) && final(buf)@ == old(buf)@,
            }
        }),
{
    let mut e = MessageEncoder::method_return(serial, destination);
    e.signature = Some("aiai");
    let head = e.head_len();
    if head > buf.len() || buf.len() - head < 4 {
        return Err(DBusError::EncodeError(EncodeError::BufferTooSmall));
    }
    let room = (buf.len() - head - 4) / 4;
    let ghost orig = *data;
    let pre = Ghost(e.body@);
    let updates = begin_array(&mut e.body, 4);
    proof {
        lemma_array_empty(pre@, 4);
    }
    match about_to_show_group(ids, data, room, &mut e.body, pre, Ghost(updates.start as nat)) {
        Ok(()) => {},
        Err(err) => return Err(err),
    }
    let ghost kept = ask_within(orig, ids.items@, room as int).1;
    end_array_of(&mut e.body, updates, pre, Ghost(4), Ghost(kept));
    let pre2 = Ghost(e.body@);
    let errors = begin_array(&mut e.body, 4);
    proof {
        lemma_array_empty(pre2@, 4);
    }
    end_array_of(&mut e.body, errors, pre2, Ghost(4), Ghost(Seq::empty()));
    proof {
        lemma_marshal_seq_two(0, Wire::Array(4, kept), Wire::Array(4, Seq::empty()));
    }
    encode_reply(&e, buf)
}

/// Hands each event of `EventGroup` to `data`, in order.
///
/// # Errors
///
/// Returns `WrongValue` at the first event that is not well formed; the
/// events before it have then been handed to `data`.
pub fn handle_event_group<D: DBusMenuData>(events: IncomingArrayValue<'_>, data: &mut D) -> (r: Result<(), DBusError>)
    ensures
        r is Ok <==> forall|k: int| 0 <= k < events.items@.len() ==> well_formed_event(#[trigger] events.items@[k]),
        r is Err ==> r == Err::<(), DBusError>(DBusError::WrongValue),
        *final(data) == deliver_events(*old(data), events.items@),
{
    let ghost orig = *data;
    let n = events.items.len();
    let mut i: usize = 0;
    proof {
        assert(events.items@.skip(0) =~= events.items@);
    }
    while i < n
        invariant
            orig == *old(data),
            n == events.items@.len(),
            i <= n,
            forall|k: int| 0 <= k < i ==> well_formed_event(#[trigger] events.items@[k]),
            deliver_events(orig, events.items@) == deliver_events(*data, events.items@.skip(i as int)),
        decreases n - i,
    {
        proof {
            assert(events.items@.skip(i as int)[0] == events.items@[i as int]);
            assert(events.items@.skip(i as int).drop_first() =~= events.items@.skip(i + 1));
        }
        let fields = match events.items[i] {
            IncomingValue::Struct(s) => s.fields,
            _ => return Err(DBusError::WrongValue),
        };
        let id = match i32_at(fields, 0) {
            Some(id) => id,
            None => return Err(DBusError::WrongValue),
        };
        let event_id = match str_at(fields, 1) {
            Some(e) => e,
            None => return Err(DBusError::WrongValue),
        };
        if !variant_at(fields, 2) {
            return Err(DBusError::WrongValue);
        }
        let timestamp = match u32_at(fields, 3) {
            Some(t) => t,
            None => return Err(DBusError::WrongValue),
        };
        let event = DBusMenuEvent { id, kind: DBusMenuEventKind::from_str(event_id), timestamp };
        assert(event == group_event(events.items@[i as int]));
        data.event(event);
        i = i + 1;
    }
    proof {
        assert(events.items@.skip(n as int) =~= Seq::<IncomingValue>::empty());
    }
    Ok(())
}

/// Writes the unknown-method error reply to call `serial` of `destination`,
/// the answer to a request that cannot be served.
pub fn no_method_reply<'b>(buf: &'b mut [u8], serial: u32, destination: &str) -> (r: Result<&'b [u8], DBusError>)
    ensures
        encoded_reply(r, old(buf)@, final(buf)@, error_no_method_message(destination.spec_bytes(), serial)),
{
    match ErrorNoMethod::encode((destination, serial), buf) {
        Ok(out) => Ok(out),
        Err(e) => Err(DBusError::EncodeError(e)),
    }
}

/// Answers `GetGroupProperties`: the properties of the items `ids`, or the
/// unknown-method error when an id is not an `i32`.
pub fn group_properties_answer<'b>(
    buf: &'b mut [u8],
    serial: u32,
    destination: &str,
    menu: &DBusMenuList,
    ids: IncomingArrayValue<'_>,
) -> (r: Result<&'b [u8], DBusError>)
    ensures
        encoded_reply(
            r,
            old(buf)@,
            final(buf)@,
            match requested_entries(menu.items@, ids.items@) {
                Some(entries) => group_properties_reply_message(serial, destination.spec_bytes(), entries),
                None => error_no_method_message(destination.spec_bytes(), serial),
            },
        ),
{
    let n = match GetGroupProperties::reply(&mut *buf, serial, destination, menu, ids) {
        Ok(out) => out.len(),
        Err(DBusError::WrongValue) => return no_method_reply(buf, serial, destination),
        Err(e) => return Err(e),
    };
    let out: &'b [u8] = buf;
    let res = written_prefix(out, n);
    assert(res@ =~= group_properties_reply_message(
        serial,
        destination.spec_bytes(),
        requested_entries(menu.items@, ids.items@)->Some_0,
    ));
    Ok(res)
}

/// Answers `AboutToShowGroup`: the updates, or the unknown-method error when
/// an id is not an `i32`; `data` is asked about the ids as `group_ask` says.
pub fn about_to_show_group_answer<'b, D: DBusMenuData>(
    buf: &'b mut [u8],
    serial: u32,
    destination: &str,
    ids: IncomingArrayValue<'_>,
    data: &mut D,
) -> (r: Result<&'b [u8], DBusError>)
    ensures
        ({
            let (after, updates, stop) = group_ask(
                *old(data),
                ids.items@,
                serial,
                destination.spec_bytes(),
                old(buf)@.len(),
            );
            &&& *final(data) == after
            &&& match stop {
                None => encoded_reply(
                    r,
                    old(buf)@,
                    final(buf)@,
                    about_to_show_group_reply_message(serial, destination.spec_bytes(), updates),
                ),
                Some(DBusError::WrongValue) => encoded_reply(
                    r,
                    old(buf)@,
                    final(buf)@,
                    error_no_method_message(destination.spec_bytes(), serial),
                ),
                Some(e) => r == Err::<&[u8], DBusError>(e) && final(buf)@ == old(buf)@,
            }
        }),
{
    let ghost asked = group_ask(*data, ids.items@, serial, destination.spec_bytes(), buf@.len());
    let n = match about_to_show_group_reply(&mut *buf, serial, destination, ids, data) {
        Ok(out) => out.len(),
        Err(DBusError::WrongValue) => return no_method_reply(buf, serial, destination),
        Err(e) => return Err(e),
    };
    let out: &'b [u8] = buf;
    let res = written_prefix(out, n);
    assert(res@ =~= about_to_show_group_reply_message(serial, destination.spec_bytes(), asked.1));
    Ok(res)
}

impl StatusNotifierMenuHandler {
    /// Tries to process a dbusmenu request for the menu object at `path`,
    /// known on the bus as `destination`.
    ///
    /// # Errors
    ///
    /// Returns an error if the reply cannot be encoded into `buf`
    pub fn handle<'b, D: DBusMenuData>(
        buf: &'b mut [u8],
        message: IncomingMessage<'_>,
        destination: &str,
        path: &str,
        data: &mut D,
    ) -> (r: Result<Option<&'b [u8]>, DBusError>)
        ensures
            match message.sender {
                None => r == Ok::<Option<&[u8]>, DBusError>(None) && final(buf)@ == old(buf)@
                    && *final(data) == *old(data),
                Some(sender) => match menu_request(message, destination, path) {
                    Ok(None) => r == Ok::<Option<&[u8]>, DBusError>(None) && final(buf)@ == old(buf)@
                        && *final(data) == *old(data),
                    Err(_) => replied(
                        r,
                        old(buf)@,
                        final(buf)@,
                        error_no_method_message(sender.spec_bytes(), message.serial),
                    ) && *final(data) == *old(data),
                    Ok(Some(req)) => menu_replied(
                        r,
                        old(buf)@,
                        final(buf)@,
                        req,
                        message.serial,
                        sender.spec_bytes(),
                        *old(data),
                    ) && *final(data) == menu_state_after(
                        req,
                        *old(data),
                        message.serial,
                        sender.spec_bytes(),
                        old(buf)@.len(),
                    ),
                },
            },
    {
        let sender = match message.sender {
            Some(s) => s,
            None => return Ok(None),
        };
        let serial = message.serial;
        let request = match Request::parse(message, destination, path) {
            Ok(Some(request)) => request,
            Ok(None) => return Ok(None),
            Err(_) => {
                return match no_method_reply(buf, serial, sender) {
                    Ok(out) => Ok(Some(out)),
                    Err(e) => Err(e),
                };
            },
        };
        let res = match request {
            Request::GetAllProperties => get_all_properties_reply(buf, serial, sender),
            Request::GetProperty { property } => get_property_reply(buf, serial, sender, property),
            Request::GetLayout { parent, depth } => {
                let revision = data.revision();
                GetLayout::reply(buf, serial, sender, revision, data.menu(), parent, depth)
            },
            Request::GetGroupProperties { ids } => {
                group_properties_answer(buf, serial, sender, data.menu(), ids)
            },
            Request::AboutToShow { id } => {
                let need_update = data.about_to_show(id);
                about_to_show_reply(buf, serial, sender, need_update)
            },
            Request::AboutToShowGroup { ids } => {
                about_to_show_group_answer(buf, serial, sender, ids, data)
            },
            Request::Event { event } => {
                data.event(event);
                empty_reply(buf, serial, sender)
            },
            Request::EventGroup { events } => {
                match handle_event_group(events, data) {
                    Ok(()) => event_group_reply(buf, serial, sender),
                    Err(_) => no_method_reply(buf, serial, sender),
                }
            },
        };
        match res {
            Ok(out) => Ok(Some(out)),
            Err(e) => Err(e),
        }
    }
}

} // verus!
