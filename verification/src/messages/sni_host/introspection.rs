//! Introspection and property requests to the StatusNotifierWatcher of a host.
use crate::encoder::{
    begin_array, end_array_of, lemma_array_empty, lemma_array_push, lemma_dict_entry,
    lemma_marshal_seq_one, message, put_bool, put_bytes, put_i32, put_pad, put_sig, put_str,
    put_str_bytes, reply_header,
};
use crate::error::EncodeError;
use crate::incoming::IncomingMessage;
use crate::introspectable::{
    standard_request, IntrospectibleObjectAt, IntrospectibleObjectAtRequest,
};
use crate::messages::error_no_method::error_no_method_message;
use crate::messages::sni_client::sni::introspection::{
    introspection_reply_message, replied_opt, reply_with_body,
};
use crate::messages::ErrorNoMethod;
use crate::text::{str_eq, str_is};
use crate::wire::{dict_entry, lemma_variant, marshal, marshal_seq, zeros, Wire};
use vstd::prelude::*;
use vstd::string::StringSliceAdditionalSpecFns;

verus! {

/// The standard interfaces that every object of the host answers.
pub const BUILTIN_INTERFACES: &'static str = "
<interface name=\"org.freedesktop.DBus.Introspectable\">
    <method name=\"Introspect\">
        <arg type=\"s\" direction=\"out\"/>
    </method>
</interface>

<interface name=\"org.freedesktop.DBus.Properties\">
    <method name=\"Get\">
        <arg name=\"interface_name\" type=\"s\" direction=\"in\"/>
        <arg name=\"property_name\" type=\"s\" direction=\"in\"/>
        <arg type=\"v\" direction=\"out\"/>
    </method>
    <method name=\"Set\">
        <arg name=\"interface_name\" type=\"s\" direction=\"in\"/>
        <arg name=\"property_name\" type=\"s\" direction=\"in\"/>
        <arg name=\"value\" type=\"v\" direction=\"in\"/>
    </method>
    <method name=\"GetAll\">
        <arg name=\"interface_name\" type=\"s\" direction=\"in\"/>
        <arg type=\"a{sv}\" direction=\"out\"/>
    </method>
    <signal name=\"PropertiesChanged\">
        <arg name=\"interface_name\" type=\"s\"/>
        <arg name=\"changed_properties\" type=\"a{sv}\"/>
        <arg name=\"invalidated_properties\" type=\"as\"/>
    </signal>
</interface>

<interface name=\"org.freedesktop.DBus.Peer\">
    <method name=\"Ping\">
    </method>
    <method name=\"GetMachineId\">
        <arg type=\"s\" direction=\"out\"/>
    </method>
</interface>
";

/// The `org.kde.StatusNotifierWatcher` interface.
pub const KSNI_INTERFACE: &'static str = "
<interface name=\"org.kde.StatusNotifierWatcher\">
    <method name=\"RegisterStatusNotifierItem\">
        <arg name=\"service\" type=\"s\" direction=\"in\" />
    </method>

    <method name=\"RegisterStatusNotifierHost\">
        <arg name=\"service\" type=\"s\" direction=\"in\" />
    </method>

    <property name=\"RegisteredStatusNotifierItems\" type=\"as\" access=\"read\" />
    <property name=\"IsStatusNotifierHostRegistered\" type=\"b\" access=\"read\" />
    <property name=\"ProtocolVersion\" type=\"i\" access=\"read\" />

    <signal name=\"StatusNotifierItemRegistered\">
        <arg type=\"s\" />
    </signal>
    <signal name=\"StatusNotifierItemUnregistered\">
        <arg type=\"s\" />
    </signal>
    <signal name=\"StatusNotifierHostRegistered\" />
    <signal name=\"StatusNotifierHostUnregistered\" />

</interface>
";

/// The document type line that introspection data starts with.
pub const XML_HEADER: &'static str = "
<!DOCTYPE node PUBLIC \"-//freedesktop//DTD D-BUS Object Introspection 1.0//EN\" \"http://www.freedesktop.org/standards/dbus/1.0/introspect.dtd\">
";

/// Size of the buffer that introspection data is laid out in; the data is
/// padded with zero bytes up to it.
pub const INTROSPECTION_XML_SIZE: usize = 10240;

/// `content` padded with zero bytes to `size` bytes.
pub open spec fn padded(content: Seq<u8>, size: nat) -> Seq<u8> {
    if content.len() < size {
        content + zeros((size - content.len()) as nat)
    } else {
        content
    }
}

/// Introspection data of the `/StatusNotifierWatcher` object, before padding.
pub open spec fn ksni_xml_content() -> Seq<u8> {
    XML_HEADER.spec_bytes() + "\n<node>\n    ".spec_bytes() + KSNI_INTERFACE.spec_bytes() + "\n    ".spec_bytes()
        + BUILTIN_INTERFACES.spec_bytes() + "\n".spec_bytes() + "</node>\n".spec_bytes()
}

/// Introspection data of the root object, before padding.
pub open spec fn root_xml_content() -> Seq<u8> {
    XML_HEADER.spec_bytes() + "\n<node>\n    ".spec_bytes() + BUILTIN_INTERFACES.spec_bytes()
        + "\n    <node name=\"StatusNotifierWatcher\">\n        ".spec_bytes() + KSNI_INTERFACE.spec_bytes()
        + "\n        ".spec_bytes() + BUILTIN_INTERFACES.spec_bytes() + "\n    </node>\n</node>\n".spec_bytes()
}

/// Appends zero bytes to `v` until it is `size` bytes long.
fn pad_to(v: &mut Vec<u8>, size: usize)
    ensures
        final(v)@ == padded(old(v)@, size as nat),
{
    let ghost start = v@;
    while v.len() < size
        invariant
            start.len() <= v@.len(),
            start.len() < size ==> v@.len() <= size,
            start.len() >= size ==> v@.len() == start.len(),
            v@ == start + zeros((v@.len() - start.len()) as nat),
        decreases size - v@.len(),
    {
        v.push(0);
        proof {
            assert(v@ =~= start + zeros((v@.len() - start.len()) as nat));
        }
    }
    proof {
        if start.len() >= size {
            assert(v@ =~= start);
        }
    }
}

/// Builds the introspection data of the `/StatusNotifierWatcher` object.
pub fn build_ksni_introspection_xml() -> (r: Vec<u8>)
    ensures
        r@ == padded(ksni_xml_content(), INTROSPECTION_XML_SIZE as nat),
{
    let mut v: Vec<u8> = Vec::new();
    put_bytes(&mut v, XML_HEADER.as_bytes());
    put_bytes(&mut v, "\n<node>\n    ".as_bytes());
    put_bytes(&mut v, KSNI_INTERFACE.as_bytes());
    put_bytes(&mut v, "\n    ".as_bytes());
    put_bytes(&mut v, BUILTIN_INTERFACES.as_bytes());
    put_bytes(&mut v, "\n".as_bytes());
    put_bytes(&mut v, "</node>\n".as_bytes());
    assert(v@ =~= ksni_xml_content());
    pad_to(&mut v, INTROSPECTION_XML_SIZE);
    v
}

/// Builds the introspection data of the root object.
pub fn build_root_introspection_xml() -> (r: Vec<u8>)
    ensures
        r@ == padded(root_xml_content(), INTROSPECTION_XML_SIZE as nat),
{
    let mut v: Vec<u8> = Vec::new();
    put_bytes(&mut v, XML_HEADER.as_bytes());
    put_bytes(&mut v, "\n<node>\n    ".as_bytes());
    put_bytes(&mut v, BUILTIN_INTERFACES.as_bytes());
    put_bytes(&mut v, "\n    <node name=\"StatusNotifierWatcher\">\n        ".as_bytes());
    put_bytes(&mut v, KSNI_INTERFACE.as_bytes());
    put_bytes(&mut v, "\n        ".as_bytes());
    put_bytes(&mut v, BUILTIN_INTERFACES.as_bytes());
    put_bytes(&mut v, "\n    </node>\n</node>\n".as_bytes());
    assert(v@ =~= root_xml_content());
    pad_to(&mut v, INTROSPECTION_XML_SIZE);
    v
}

/// The watcher's properties, in the order of the `GetAll` reply: protocol
/// version 42, a registered host, and no registered items.
pub open spec fn watcher_properties() -> Seq<Wire> {
    seq![
        dict_entry("ProtocolVersion".spec_bytes(), "i".spec_bytes(), Wire::Int32(42)),
        dict_entry("IsStatusNotifierHostRegistered".spec_bytes(), "b".spec_bytes(), Wire::Bool(true)),
        dict_entry("RegisteredStatusNotifierItems".spec_bytes(), "as".spec_bytes(), Wire::Array(4, Seq::empty())),
    ]
}

/// The reply to `Get` with value `v`.
pub open spec fn variant_reply_message(serial: u32, destination: Seq<u8>, v: Wire) -> Seq<u8> {
    message(reply_header(serial, destination, "v".spec_bytes()), seq![v])
}

/// Whether a property request names the watcher object and interface.
pub open spec fn on_watcher(path: &str, interface: &str) -> bool {
    str_is(path, "/StatusNotifierWatcher") && str_is(interface, "org.kde.StatusNotifierWatcher")
}

/// The reply to request `req` of call `serial` from `sender`.
pub open spec fn watcher_reply(req: IntrospectibleObjectAtRequest, serial: u32, sender: Seq<u8>) -> Seq<u8> {
    let no_method = error_no_method_message(sender, serial);
    match req {
        IntrospectibleObjectAtRequest::Introspect { path } => if str_is(path, "/") {
            introspection_reply_message(serial, sender, padded(root_xml_content(), INTROSPECTION_XML_SIZE as nat))
        } else if str_is(path, "/StatusNotifierWatcher") {
            introspection_reply_message(serial, sender, padded(ksni_xml_content(), INTROSPECTION_XML_SIZE as nat))
        } else {
            no_method
        },
        IntrospectibleObjectAtRequest::GetAllProperties { path, interface } => if on_watcher(path, interface) {
            message(reply_header(serial, sender, "a{sv}".spec_bytes()), seq![Wire::Array(8, watcher_properties())])
        } else {
            no_method
        },
        IntrospectibleObjectAtRequest::GetProperty { path, interface, property_name } => if !on_watcher(path, interface) {
            no_method
        } else if str_is(property_name, "ProtocolVersion") {
            variant_reply_message(serial, sender, Wire::Variant("i".spec_bytes(), Box::new(Wire::Int32(42))))
        } else if str_is(property_name, "IsStatusNotifierHostRegistered") {
            variant_reply_message(serial, sender, Wire::Variant("b".spec_bytes(), Box::new(Wire::Bool(true))))
        } else if str_is(property_name, "RegisteredStatusNotifierItems") {
            variant_reply_message(
                serial,
                sender,
                Wire::Variant("as".spec_bytes(), Box::new(Wire::Array(4, Seq::empty()))),
            )
        } else {
            no_method
        },
        _ => no_method,
    }
}

/// Writes the reply carrying introspection data `xml`.
fn encode_reply_xml<'b>(buf: &'b mut [u8], serial: u32, destination: &str, xml: &[u8]) -> (r: Result<&'b [u8], EncodeError>)
    ensures
        crate::encoder::encoded(r, old(buf)@, final(buf)@, introspection_reply_message(serial, destination.spec_bytes(), xml@)),
{
    let mut body: Vec<u8> = Vec::new();
    put_str_bytes(&mut body, xml);
    proof {
        lemma_marshal_seq_one(0, Wire::Str(xml@));
    }
    reply_with_body(buf, serial, destination, "s", body)
}

/// Writes the reply to `Get` of `ProtocolVersion`.
fn encode_reply_protocol_version<'b>(buf: &'b mut [u8], serial: u32, destination: &str) -> (r: Result<&'b [u8], EncodeError>)
    ensures
        crate::encoder::encoded(
            r,
            old(buf)@,
            final(buf)@,
            variant_reply_message(serial, destination.spec_bytes(), Wire::Variant("i".spec_bytes(), Box::new(Wire::Int32(42)))),
        ),
{
    let mut body: Vec<u8> = Vec::new();
    put_sig(&mut body, "i");
    put_i32(&mut body, 42);
    proof {
        lemma_variant(0, "i".spec_bytes(), Wire::Int32(42));
        lemma_marshal_seq_one(0, Wire::Variant("i".spec_bytes(), Box::new(Wire::Int32(42))));
    }
    reply_with_body(buf, serial, destination, "v", body)
}

/// Writes the reply to `Get` of `IsStatusNotifierHostRegistered`.
fn encode_reply_is_host_registered<'b>(buf: &'b mut [u8], serial: u32, destination: &str) -> (r: Result<&'b [u8], EncodeError>)
    ensures
        crate::encoder::encoded(
            r,
            old(buf)@,
            final(buf)@,
            variant_reply_message(serial, destination.spec_bytes(), Wire::Variant("b".spec_bytes(), Box::new(Wire::Bool(true)))),
        ),
{
    let mut body: Vec<u8> = Vec::new();
    put_sig(&mut body, "b");
    put_bool(&mut body, true);
    proof {
        lemma_variant(0, "b".spec_bytes(), Wire::Bool(true));
        lemma_marshal_seq_one(0, Wire::Variant("b".spec_bytes(), Box::new(Wire::Bool(true))));
    }
    reply_with_body(buf, serial, destination, "v", body)
}

/// Appends an empty array of strings.
fn put_empty_str_array(v: &mut Vec<u8>)
    ensures
        final(v)@ == old(v)@ + marshal(old(v)@.len(), Wire::Array(4, Seq::empty())),
{
    let ghost pre = v@;
    let mark = begin_array(v, 4);
    proof {
        lemma_array_empty(pre, 4);
    }
    end_array_of(v, mark, Ghost(pre), Ghost(4), Ghost(Seq::empty()));
}

/// Writes the reply to `Get` of `RegisteredStatusNotifierItems`.
fn encode_reply_registered_items<'b>(buf: &'b mut [u8], serial: u32, destination: &str) -> (r: Result<&'b [u8], EncodeError>)
    ensures
        crate::encoder::encoded(
            r,
            old(buf)@,
            final(buf)@,
            variant_reply_message(
                serial,
                destination.spec_bytes(),
                Wire::Variant("as".spec_bytes(), Box::new(Wire::Array(4, Seq::empty()))),
            ),
        ),
{
    let mut body: Vec<u8> = Vec::new();
    put_sig(&mut body, "as");
    put_empty_str_array(&mut body);
    proof {
        lemma_variant(0, "as".spec_bytes(), Wire::Array(4, Seq::empty()));
        lemma_marshal_seq_one(0, Wire::Variant("as".spec_bytes(), Box::new(Wire::Array(4, Seq::empty()))));
    }
    reply_with_body(buf, serial, destination, "v", body)
}

/// Writes the reply to `GetAll` of the watcher interface.
fn encode_reply_get_all<'b>(buf: &'b mut [u8], serial: u32, destination: &str) -> (r: Result<&'b [u8], EncodeError>)
    ensures
        crate::encoder::encoded(
            r,
            old(buf)@,
            final(buf)@,
            message(reply_header(serial, destination.spec_bytes(), "a{sv}".spec_bytes()), seq![Wire::Array(8, watcher_properties())]),
        ),
{
    let mut body: Vec<u8> = Vec::new();
    let ghost pre = body@;
    let mark = begin_array(&mut body, 8);
    let ghost start: nat = mark.start as nat;
    let ghost all = watcher_properties();
    proof {
        lemma_array_empty(pre, 8);
    }
    let ghost p0 = body@.len();
    put_pad(&mut body, 8);
    put_str(&mut body, "ProtocolVersion");
    put_sig(&mut body, "i");
    put_i32(&mut body, 42);
    proof {
        lemma_dict_entry(p0, "ProtocolVersion".spec_bytes(), "i".spec_bytes(), Wire::Int32(42));
        assert(body@ =~= pre + crate::encoder::array_head(pre.len(), 8) + marshal_seq(start, Seq::empty()) + marshal(p0, all[0]));
        lemma_array_push(pre, 8, start, Seq::empty(), all[0]);
        assert(Seq::<Wire>::empty().push(all[0]) =~= all.subrange(0, 1));
    }
    let ghost p1 = body@.len();
    put_pad(&mut body, 8);
    put_str(&mut body, "IsStatusNotifierHostRegistered");
    put_sig(&mut body, "b");
    put_bool(&mut body, true);
    proof {
        lemma_dict_entry(p1, "IsStatusNotifierHostRegistered".spec_bytes(), "b".spec_bytes(), Wire::Bool(true));
        assert(body@ =~= pre + crate::encoder::array_head(pre.len(), 8) + marshal_seq(start, all.subrange(0, 1)) + marshal(p1, all[1]));
        lemma_array_push(pre, 8, start, all.subrange(0, 1), all[1]);
        assert(all.subrange(0, 1).push(all[1]) =~= all.subrange(0, 2));
    }
    let ghost p2 = body@.len();
    put_pad(&mut body, 8);
    put_str(&mut body, "RegisteredStatusNotifierItems");
    put_sig(&mut body, "as");
    put_empty_str_array(&mut body);
    proof {
        lemma_dict_entry(p2, "RegisteredStatusNotifierItems".spec_bytes(), "as".spec_bytes(), Wire::Array(4, Seq::empty()));
        assert(body@ =~= pre + crate::encoder::array_head(pre.len(), 8) + marshal_seq(start, all.subrange(0, 2)) + marshal(p2, all[2]));
        lemma_array_push(pre, 8, start, all.subrange(0, 2), all[2]);
        assert(all.subrange(0, 2).push(all[2]) =~= all);
    }
    end_array_of(&mut body, mark, Ghost(pre), Ghost(8), Ghost(all));
    proof {
        lemma_marshal_seq_one(0, Wire::Array(8, all));
    }
    reply_with_body(buf, serial, destination, "a{sv}", body)
}

/// Helper struct to handle introspection requests for (K)SNI host
pub struct StatusNotifierWatcherIntrospection {
    introspection: IntrospectibleObjectAt<'static>,
}

/// The name of the watcher on the bus.
pub open spec fn watcher_bus_name() -> &'static str {
    "org.kde.StatusNotifierWatcher"
}

impl StatusNotifierWatcherIntrospection {
    /// The recogniser of standard calls that the helper uses.
    pub closed spec fn spec_object(&self) -> IntrospectibleObjectAt<'static> {
        self.introspection
    }

    /// Constructor
    pub fn new() -> (r: Self)
        ensures
            r.spec_object().spec_destination() == watcher_bus_name(),
    {
        Self { introspection: IntrospectibleObjectAt::new("org.kde.StatusNotifierWatcher") }
    }

    /// Tries to process given message, and if it's an introspection or
    /// property request to the watcher, writes the reply into `buf`.
    ///
    /// # Errors
    ///
    /// Returns an error if the reply doesn't fit into `buf`.
    pub fn handle<'b>(&self, buf: &'b mut [u8], message: IncomingMessage<'_>) -> (r: Result<Option<&'b [u8]>, EncodeError>)
        ensures
            match standard_request(message, self.spec_object().spec_destination()) {
                None => r == Ok::<Option<&[u8]>, EncodeError>(None) && final(buf)@ == old(buf)@,
                Some((serial, sender, req)) => replied_opt(
                    r,
                    old(buf)@,
                    final(buf)@,
                    watcher_reply(req, serial, sender.spec_bytes()),
                ),
            },
    {
        let (serial, sender, req) = match self.introspection.handle(message) {
            Some(x) => x,
            None => return Ok(None),
        };
        let res = match req {
            IntrospectibleObjectAtRequest::Introspect { path } => {
                if str_eq(path, "/") {
                    let xml = build_root_introspection_xml();
                    encode_reply_xml(buf, serial, sender, xml.as_slice())
                } else if str_eq(path, "/StatusNotifierWatcher") {
                    let xml = build_ksni_introspection_xml();
                    encode_reply_xml(buf, serial, sender, xml.as_slice())
                } else {
                    ErrorNoMethod::encode((sender, serial), buf)
                }
            },
            IntrospectibleObjectAtRequest::GetAllProperties { path, interface } => {
                if str_eq(path, "/StatusNotifierWatcher") && str_eq(interface, "org.kde.StatusNotifierWatcher") {
                    encode_reply_get_all(buf, serial, sender)
                } else {
                    ErrorNoMethod::encode((sender, serial), buf)
                }
            },
            IntrospectibleObjectAtRequest::GetProperty { path, interface, property_name } => {
                if !(str_eq(path, "/StatusNotifierWatcher") && str_eq(interface, "org.kde.StatusNotifierWatcher")) {
                    ErrorNoMethod::encode((sender, serial), buf)
                } else if str_eq(property_name, "ProtocolVersion") {
                    encode_reply_protocol_version(buf, serial, sender)
                } else if str_eq(property_name, "IsStatusNotifierHostRegistered") {
                    encode_reply_is_host_registered(buf, serial, sender)
                } else if str_eq(property_name, "RegisteredStatusNotifierItems") {
                    encode_reply_registered_items(buf, serial, sender)
                } else {
                    ErrorNoMethod::encode((sender, serial), buf)
                }
            },
            _ => ErrorNoMethod::encode((sender, serial), buf),
        };
        match res {
            Ok(out) => Ok(Some(out)),
            Err(e) => Err(e),
        }
    }
}

impl Default for StatusNotifierWatcherIntrospection {
    fn default() -> (r: Self)
        ensures
            r.spec_object().spec_destination() == watcher_bus_name(),
    {
        Self::new()
    }
}

} // verus!
