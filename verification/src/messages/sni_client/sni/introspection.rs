//! Introspection and property requests to an SNI item.
use super::data::StatusNotifierItemData;
use super::property::{
    item_property_entry, item_property_name, item_property_named, item_property_variant,
    lemma_item_property_name_parses, Property,
};
use crate::encoder::{
    begin_array, encode_into, encoded, end_array_of, lemma_array_empty, lemma_array_push,
    lemma_marshal_seq_one, message, message_bytes, put_str, reply_header, MessageEncoder, MessageType,
};
use crate::error::EncodeError;
use crate::incoming::{arg_str, carries_message, lemma_carries_index, str_at, IncomingMessage};
use crate::messages::error_no_method::error_no_method_message;
use crate::messages::org_freedesktop_dbus::get_property::{get_property_body, get_property_header};
use crate::messages::ErrorNoMethod;
use crate::text::{is_unique_name, spec_is_unique_name, str_eq, str_is};
use crate::wire::{dict_entry, marshal_seq, Wire};
use vstd::prelude::*;
use vstd::string::StringSliceAdditionalSpecFns;

verus! {

/// Introspection data of the root object of an item's connection.
pub const ROOT_XML: &'static str = "<!DOCTYPE node PUBLIC \"-//freedesktop//DTD D-BUS Object Introspection 1.0//EN\" \"http://www.freedesktop.org/standards/dbus/1.0/introspect.dtd\">
<node>
    <interface name=\"org.freedesktop.DBus.Introspectable\">
        <method name=\"Introspect\">
            <arg type=\"s\" direction=\"out\"/>
        </method>
    </interface>
    <node name=\"StatusNotifierItem\"/>
</node>
";

/// Introspection data of the `/StatusNotifierItem` object.
pub const ITEM_XML: &'static str = "<!DOCTYPE node PUBLIC \"-//freedesktop//DTD D-BUS Object Introspection 1.0//EN\" \"http://www.freedesktop.org/standards/dbus/1.0/introspect.dtd\">
<node>
    <interface name=\"org.kde.StatusNotifierItem\">
        <property name=\"Category\" type=\"s\" access=\"read\"/>
        <property name=\"Id\" type=\"s\" access=\"read\"/>
        <property name=\"Title\" type=\"s\" access=\"read\"/>
        <property name=\"Status\" type=\"s\" access=\"read\"/>
        <property name=\"IconName\" type=\"s\" access=\"read\"/>
        <property name=\"IconPixmap\" type=\"a(iiay)\" access=\"read\"/>
        <property name=\"Menu\" type=\"o\" access=\"read\"/>
        <property name=\"ItemIsMenu\" type=\"b\" access=\"read\"/>
        <method name=\"Activate\">
            <arg name=\"x\" type=\"i\" direction=\"in\"/>
            <arg name=\"y\" type=\"i\" direction=\"in\"/>
        </method>
        <signal name=\"NewIcon\"/>
    </interface>
    <interface name=\"org.freedesktop.DBus.Introspectable\">
        <method name=\"Introspect\">
            <arg type=\"s\" direction=\"out\"/>
        </method>
    </interface>
    <interface name=\"org.freedesktop.DBus.Properties\">
        <method name=\"Get\">
            <arg name=\"interface_name\" type=\"s\" direction=\"in\"/>
            <arg name=\"property_name\" type=\"s\" direction=\"in\"/>
            <arg type=\"v\" direction=\"out\"/>
        </method>
        <method name=\"GetAll\">
            <arg name=\"interface_name\" type=\"s\" direction=\"in\"/>
            <arg type=\"a{sv}\" direction=\"out\"/>
        </method>
    </interface>
</node>
";

/// Helper struct to handle introspection and property requests for an SNI item
pub struct StatusNotifierItemHandler<'d> {
    destination: &'d str,
}

/// A request to the item.
#[derive(Clone, Copy)]
pub enum ItemRequest {
    /// Introspection of `/`
    IntrospectRoot,
    /// Introspection of `/StatusNotifierItem`
    IntrospectStatusNotifier,
    /// `Get` of one item property
    GetProperty { property: Property },
    /// `GetAll` of the item properties
    GetAllProperties,
    /// Any other call of the introspection, properties or peer interface
    Other,
}

/// Whether `i` names the item interface, under either of its names.
pub open spec fn is_item_interface(i: &str) -> bool {
    str_is(i, "org.kde.StatusNotifierItem") || str_is(i, "org.freedesktop.StatusNotifierItem")
}

/// The request that `m` makes of the item known on the bus as `destination`.
pub open spec fn item_request(m: IncomingMessage, destination: &str) -> Option<ItemRequest> {
    if m.message_type != MessageType::MethodCall || m.destination is None {
        None
    } else if !(str_is(m.destination->Some_0, destination) || spec_is_unique_name(m.destination->Some_0)) {
        None
    } else if m.path is None || m.member is None || m.interface is None {
        None
    } else {
        let path = m.path->Some_0;
        let member = m.member->Some_0;
        let interface = m.interface->Some_0;
        let on_item = str_is(path, "/StatusNotifierItem");
        if str_is(interface, "org.freedesktop.DBus.Introspectable") && str_is(member, "Introspect") {
            if str_is(path, "/") {
                Some(ItemRequest::IntrospectRoot)
            } else if on_item {
                Some(ItemRequest::IntrospectStatusNotifier)
            } else {
                Some(ItemRequest::Other)
            }
        } else if str_is(interface, "org.freedesktop.DBus.Properties") && str_is(member, "Get") {
            match m.body {
                None => None,
                Some(b) => match (arg_str(b.values@, 0), arg_str(b.values@, 1)) {
                    (Some(i), Some(p)) => if !on_item || !is_item_interface(i) {
                        Some(ItemRequest::Other)
                    } else {
                        match item_property_named(p.spec_bytes()) {
                            Some(property) => Some(ItemRequest::GetProperty { property }),
                            None => None,
                        }
                    },
                    _ => Some(ItemRequest::Other),
                },
            }
        } else if str_is(interface, "org.freedesktop.DBus.Properties") && str_is(member, "GetAll") {
            match m.body {
                None => None,
                Some(b) => match arg_str(b.values@, 0) {
                    Some(i) => if !on_item || !is_item_interface(i) {
                        Some(ItemRequest::Other)
                    } else {
                        Some(ItemRequest::GetAllProperties)
                    },
                    None => Some(ItemRequest::Other),
                },
            }
        } else if str_is(interface, "org.freedesktop.DBus.Properties") || str_is(
            interface,
            "org.freedesktop.DBus.Peer",
        ) {
            Some(ItemRequest::Other)
        } else {
            None
        }
    }
}

/// The reply carrying introspection data `xml`.
pub open spec fn introspection_reply_message(serial: u32, destination: Seq<u8>, xml: Seq<u8>) -> Seq<u8> {
    message(reply_header(serial, destination, "s".spec_bytes()), seq![Wire::Str(xml)])
}

/// The reply to `Get` of one item property.
pub open spec fn item_property_reply_message<D: StatusNotifierItemData>(
    serial: u32,
    destination: Seq<u8>,
    p: Property,
    d: &D,
) -> Seq<u8> {
    message(reply_header(serial, destination, "v".spec_bytes()), seq![item_property_variant(p, d)])
}

/// The item properties, in the order of the `GetAll` reply.
pub open spec fn all_item_properties<D: StatusNotifierItemData>(d: &D) -> Seq<Wire> {
    seq![
        item_property_entry(Property::Category, d),
        item_property_entry(Property::Id, d),
        item_property_entry(Property::Title, d),
        item_property_entry(Property::Status, d),
        item_property_entry(Property::IconName, d),
        item_property_entry(Property::IconPixmap, d),
        item_property_entry(Property::Menu, d),
        item_property_entry(Property::ItemIsMenu, d),
    ]
}

/// The reply to `GetAll` of the item properties.
pub open spec fn item_properties_reply_message<D: StatusNotifierItemData>(serial: u32, destination: Seq<u8>, d: &D) -> Seq<u8> {
    message(reply_header(serial, destination, "a{sv}".spec_bytes()), seq![Wire::Array(8, all_item_properties(d))])
}

/// The reply to request `req` of call `serial` from `sender`.
pub open spec fn item_reply_message<D: StatusNotifierItemData>(req: ItemRequest, serial: u32, sender: Seq<u8>, d: &D) -> Seq<u8> {
    match req {
        ItemRequest::IntrospectRoot => introspection_reply_message(serial, sender, ROOT_XML.spec_bytes()),
        ItemRequest::IntrospectStatusNotifier => introspection_reply_message(serial, sender, ITEM_XML.spec_bytes()),
        ItemRequest::GetProperty { property } => item_property_reply_message(serial, sender, property, d),
        ItemRequest::GetAllProperties => item_properties_reply_message(serial, sender, d),
        ItemRequest::Other => error_no_method_message(sender, serial),
    }
}

/// Outcome of writing `msg` as an optional reply.
pub open spec fn replied_opt(
    r: Result<Option<&[u8]>, EncodeError>,
    before: Seq<u8>,
    after: Seq<u8>,
    msg: Seq<u8>,
) -> bool {
    match r {
        Ok(Some(out)) => encoded(Ok(out), before, after, msg),
        Ok(None) => false,
        Err(e) => encoded(Err(e), before, after, msg),
    }
}

impl ItemRequest {
    /// Parses `message` as a request to the item known on the bus as `destination`.
    pub fn parse(message: IncomingMessage<'_>, destination: &str) -> (r: Option<Self>)
        ensures
            r == item_request(message, destination),
    {
        if message.message_type != MessageType::MethodCall {
            return None;
        }
        let dst = match message.destination {
            Some(d) => d,
            None => return None,
        };
        if !str_eq(dst, destination) && !is_unique_name(dst) {
            return None;
        }
        let path = match message.path {
            Some(p) => p,
            None => return None,
        };
        let member = match message.member {
            Some(m) => m,
            None => return None,
        };
        let interface = match message.interface {
            Some(i) => i,
            None => return None,
        };
        let on_item = str_eq(path, "/StatusNotifierItem");
        let properties = str_eq(interface, "org.freedesktop.DBus.Properties");
        if str_eq(interface, "org.freedesktop.DBus.Introspectable") && str_eq(member, "Introspect") {
            if str_eq(path, "/") {
                Some(Self::IntrospectRoot)
            } else if on_item {
                Some(Self::IntrospectStatusNotifier)
            } else {
                Some(Self::Other)
            }
        } else if properties && str_eq(member, "Get") {
            let vals = match message.body {
                Some(b) => b.values,
                None => return None,
            };
            match (str_at(vals, 0), str_at(vals, 1)) {
                (Some(i), Some(p)) => {
                    if !on_item || !(str_eq(i, "org.kde.StatusNotifierItem") || str_eq(
                        i,
                        "org.freedesktop.StatusNotifierItem",
                    )) {
                        return Some(Self::Other);
                    }
                    match Property::parse(p) {
                        Some(property) => Some(Self::GetProperty { property }),
                        None => None,
                    }
                },
                _ => Some(Self::Other),
            }
        } else if properties && str_eq(member, "GetAll") {
            let vals = match message.body {
                Some(b) => b.values,
                None => return None,
            };
            match str_at(vals, 0) {
                Some(i) => {
                    if !on_item || !(str_eq(i, "org.kde.StatusNotifierItem") || str_eq(
                        i,
                        "org.freedesktop.StatusNotifierItem",
                    )) {
                        Some(Self::Other)
                    } else {
                        Some(Self::GetAllProperties)
                    }
                },
                None => Some(Self::Other),
            }
        } else if properties || str_eq(interface, "org.freedesktop.DBus.Peer") {
            Some(Self::Other)
        } else {
            None
        }
    }
}

/// Writes a method return to call `serial` of `destination` with `body` of signature `signature`.
pub fn reply_with_body<'b>(
    buf: &'b mut [u8],
    serial: u32,
    destination: &str,
    signature: &str,
    body: Vec<u8>,
) -> (r: Result<&'b [u8], EncodeError>)
    ensures
        encoded(
            r,
            old(buf)@,
            final(buf)@,
            message_bytes(reply_header(serial, destination.spec_bytes(), signature.spec_bytes()), body@),
        ),
{
    let mut e = MessageEncoder::method_return(serial, destination);
    e.signature = Some(signature);
    e.body = body;
    encode_into(&e, buf)
}

/// Writes the reply carrying introspection data `xml`.
pub fn introspection_reply<'b>(buf: &'b mut [u8], serial: u32, destination: &str, xml: &str) -> (r: Result<&'b [u8], EncodeError>)
    ensures
        encoded(r, old(buf)@, final(buf)@, introspection_reply_message(serial, destination.spec_bytes(), xml.spec_bytes())),
{
    let mut body: Vec<u8> = Vec::new();
    put_str(&mut body, xml);
    proof {
        lemma_marshal_seq_one(0, Wire::Str(xml.spec_bytes()));
    }
    reply_with_body(buf, serial, destination, "s", body)
}

/// Writes the reply to `Get` of `property`.
pub fn get_property_reply<'b, D: StatusNotifierItemData>(
    buf: &'b mut [u8],
    serial: u32,
    destination: &str,
    property: Property,
    data: &D,
) -> (r: Result<&'b [u8], EncodeError>)
    ensures
        encoded(r, old(buf)@, final(buf)@, item_property_reply_message(serial, destination.spec_bytes(), property, data)),
{
    let mut body: Vec<u8> = Vec::new();
    property.encode_value(&mut body, data);
    proof {
        lemma_marshal_seq_one(0, item_property_variant(property, data));
    }
    reply_with_body(buf, serial, destination, "v", body)
}

/// Writes the reply to `GetAll`.
pub fn get_all_properties_reply<'b, D: StatusNotifierItemData>(
    buf: &'b mut [u8],
    serial: u32,
    destination: &str,
    data: &D,
) -> (r: Result<&'b [u8], EncodeError>)
    ensures
        encoded(r, old(buf)@, final(buf)@, item_properties_reply_message(serial, destination.spec_bytes(), data)),
{
    let mut body: Vec<u8> = Vec::new();
    let pre = Ghost(body@);
    let mark = begin_array(&mut body, 8);
    let ghost start: nat = mark.start as nat;
    let ghost all = all_item_properties(data);
    proof {
        lemma_array_empty(pre@, 8);
    }
    let order = [
        Property::Category,
        Property::Id,
        Property::Title,
        Property::Status,
        Property::IconName,
        Property::IconPixmap,
        Property::Menu,
        Property::ItemIsMenu,
    ];
    let mut i: usize = 0;
    while i < 8
        invariant
            i <= 8,
            order@ == seq![
                Property::Category,
                Property::Id,
                Property::Title,
                Property::Status,
                Property::IconName,
                Property::IconPixmap,
                Property::Menu,
                Property::ItemIsMenu,
            ],
            all == all_item_properties(data),
            start == pre@.len() + crate::encoder::array_head(pre@.len(), 8).len(),
            body@ == pre@ + crate::encoder::array_head(pre@.len(), 8) + marshal_seq(start, all.subrange(0, i as int)),
        decreases 8 - i,
    {
        let p = order[i];
        p.encode_key_value(&mut body, data);
        proof {
            assert(all[i as int] == item_property_entry(p, data));
            lemma_array_push(pre@, 8, start, all.subrange(0, i as int), all[i as int]);
            assert(all.subrange(0, i as int).push(all[i as int]) =~= all.subrange(0, i + 1));
        }
        i = i + 1;
    }
    proof {
        assert(all.subrange(0, 8) =~= all);
    }
    end_array_of(&mut body, mark, pre, Ghost(8), Ghost(all));
    proof {
        lemma_marshal_seq_one(0, Wire::Array(8, all));
    }
    reply_with_body(buf, serial, destination, "a{sv}", body)
}

impl<'d> StatusNotifierItemHandler<'d> {
    /// The destination that the handler answers for.
    pub closed spec fn spec_destination(&self) -> &'d str {
        self.destination
    }

    /// Constructor
    pub fn new(destination: &'d str) -> (h: Self)
        ensures
            h.spec_destination() == destination,
    {
        Self { destination }
    }

    /// Tries to process an introspection or property request for `/StatusNotifierItem`
    ///
    /// # Errors
    ///
    /// Returns an error if the reply cannot be encoded into `buf`
    pub fn handle<'b, D: StatusNotifierItemData>(
        &self,
        buf: &'b mut [u8],
        message: IncomingMessage<'_>,
        data: &D,
    ) -> (r: Result<Option<&'b [u8]>, EncodeError>)
        ensures
            match (item_request(message, self.spec_destination()), message.sender) {
                (Some(req), Some(sender)) => replied_opt(
                    r,
                    old(buf)@,
                    final(buf)@,
                    item_reply_message(req, message.serial, sender.spec_bytes(), data),
                ),
                _ => r == Ok::<Option<&[u8]>, EncodeError>(None) && final(buf)@ == old(buf)@,
            },
    {
        let req = match ItemRequest::parse(message, self.destination) {
            Some(req) => req,
            None => return Ok(None),
        };
        let sender = match message.sender {
            Some(s) => s,
            None => return Ok(None),
        };
        let serial = message.serial;
        let res = match req {
            ItemRequest::IntrospectRoot => introspection_reply(buf, serial, sender, ROOT_XML),
            ItemRequest::IntrospectStatusNotifier => introspection_reply(buf, serial, sender, ITEM_XML),
            ItemRequest::GetProperty { property } => get_property_reply(buf, serial, sender, property, data),
            ItemRequest::GetAllProperties => get_all_properties_reply(buf, serial, sender, data),
            ItemRequest::Other => ErrorNoMethod::encode((sender, serial), buf),
        };
        match res {
            Ok(out) => Ok(Some(out)),
            Err(e) => Err(e),
        }
    }
}

/// An item known as `destination` that reads a `Get` call for one of its
/// properties (such as a host sends for the icon) takes it as a request for
/// that property.
pub proof fn lemma_item_reads_property_get(m: IncomingMessage, destination: &str, p: Property)
    requires
        carries_message(
            m,
            get_property_header(destination.spec_bytes(), "/StatusNotifierItem".spec_bytes()),
            get_property_body("org.kde.StatusNotifierItem".spec_bytes(), item_property_name(p)),
        ),
    ensures
        item_request(m, destination) == Some(ItemRequest::GetProperty { property: p }),
{
    lemma_item_property_name_parses(p);
    reveal_strlit("org.freedesktop.DBus.Properties");
    reveal_strlit("org.freedesktop.DBus.Introspectable");
    assert(vstd::string::is_ascii("org.freedesktop.DBus.Properties"));
    assert(vstd::string::is_ascii("org.freedesktop.DBus.Introspectable"));
    vstd::string::is_ascii_spec_bytes("org.freedesktop.DBus.Properties");
    vstd::string::is_ascii_spec_bytes("org.freedesktop.DBus.Introspectable");
    let vals = m.body->Some_0.values@;
    let body = get_property_body("org.kde.StatusNotifierItem".spec_bytes(), item_property_name(p));
    lemma_carries_index(vals, body, 0);
    lemma_carries_index(vals, body, 1);
}

/// The item's text properties are the strings its data gives: `Get` of
/// `Title` answers a string variant holding the title, `Id` the id,
/// `IconName` the icon name and `Menu` an object path variant holding the
/// menu's path; `ItemIsMenu` a boolean variant. `GetAll` lists the same
/// values under their names.
pub proof fn lemma_item_text_properties<D: StatusNotifierItemData>(serial: u32, destination: Seq<u8>, d: &D)
    ensures
        item_property_reply_message(serial, destination, Property::Title, d) == message(
            reply_header(serial, destination, "v".spec_bytes()),
            seq![Wire::Variant("s".spec_bytes(), Box::new(Wire::Str(d.spec_title())))],
        ),
        item_property_reply_message(serial, destination, Property::Id, d) == message(
            reply_header(serial, destination, "v".spec_bytes()),
            seq![Wire::Variant("s".spec_bytes(), Box::new(Wire::Str(d.spec_id())))],
        ),
        item_property_reply_message(serial, destination, Property::IconName, d) == message(
            reply_header(serial, destination, "v".spec_bytes()),
            seq![Wire::Variant("s".spec_bytes(), Box::new(Wire::Str(d.spec_icon_name())))],
        ),
        item_property_reply_message(serial, destination, Property::Menu, d) == message(
            reply_header(serial, destination, "v".spec_bytes()),
            seq![Wire::Variant("o".spec_bytes(), Box::new(Wire::Str(d.spec_menu())))],
        ),
        item_property_reply_message(serial, destination, Property::ItemIsMenu, d) == message(
            reply_header(serial, destination, "v".spec_bytes()),
            seq![Wire::Variant("b".spec_bytes(), Box::new(Wire::Bool(d.spec_item_is_menu())))],
        ),
        all_item_properties(d)[1] == dict_entry("Id".spec_bytes(), "s".spec_bytes(), Wire::Str(d.spec_id())),
        all_item_properties(d)[2] == dict_entry("Title".spec_bytes(), "s".spec_bytes(), Wire::Str(d.spec_title())),
        all_item_properties(d)[4] == dict_entry(
            "IconName".spec_bytes(),
            "s".spec_bytes(),
            Wire::Str(d.spec_icon_name()),
        ),
        all_item_properties(d)[6] == dict_entry("Menu".spec_bytes(), "o".spec_bytes(), Wire::Str(d.spec_menu())),
        all_item_properties(d)[7] == dict_entry(
            "ItemIsMenu".spec_bytes(),
            "b".spec_bytes(),
            Wire::Bool(d.spec_item_is_menu()),
        ),
{
}

} // verus!
