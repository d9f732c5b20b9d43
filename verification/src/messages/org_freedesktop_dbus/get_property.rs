//! `org.freedesktop.DBus.Properties.Get`.
use crate::encoder::{
    call_header, encoded_len, lemma_marshal_seq_two, message, put_str, HeaderSpec, MessageEncoder,
};
use crate::error::EncodeError;
use crate::wire::{marshal_seq, Wire};
use vstd::prelude::*;
use vstd::string::StringSliceAdditionalSpecFns;

verus! {

/// Represents a request to get a single property of `DBus` object
pub struct GetProperty;

/// Interface of the standard property methods.
pub open spec fn properties_interface() -> Seq<u8> {
    "org.freedesktop.DBus.Properties".spec_bytes()
}

/// The `Get` call for one property.
pub open spec fn get_property_message(
    destination: Seq<u8>,
    path: Seq<u8>,
    interface: Seq<u8>,
    property: Seq<u8>,
) -> Seq<u8> {
    message(get_property_header(destination, path), get_property_body(interface, property))
}

/// Header of a `Get` call to the object at `path` of `destination`.
pub open spec fn get_property_header(destination: Seq<u8>, path: Seq<u8>) -> HeaderSpec {
    call_header(destination, path, properties_interface(), "Get".spec_bytes(), "ss".spec_bytes())
}

/// Body of a `Get` call for `property` of `interface`.
pub open spec fn get_property_body(interface: Seq<u8>, property: Seq<u8>) -> Seq<Wire> {
    seq![Wire::Str(interface), Wire::Str(property)]
}

impl GetProperty {
    /// Writes a "get" message to a given buffer.
    ///
    /// # Errors
    ///
    /// Returns an error if message doesn't fit into given buffer.
    pub fn encode(
        buf: &mut [u8],
        destination: &str,
        path: &str,
        interface: &str,
        property: &str,
    ) -> (r: Result<usize, EncodeError>)
        ensures
            encoded_len(
                r,
                old(buf)@,
                final(buf)@,
                get_property_message(
                    destination.spec_bytes(),
                    path.spec_bytes(),
                    interface.spec_bytes(),
                    property.spec_bytes(),
                ),
            ),
    {
        let mut e = MessageEncoder::method_call(destination, path, "org.freedesktop.DBus.Properties", "Get");
        e.signature = Some("ss");
        put_str(&mut e.body, interface);
        put_str(&mut e.body, property);
        proof {
            lemma_marshal_seq_two(0, Wire::Str(interface.spec_bytes()), Wire::Str(property.spec_bytes()));
            assert(e.body@ =~= marshal_seq(0, seq![Wire::Str(interface.spec_bytes()), Wire::Str(property.spec_bytes())]));
        }
        e.finish(buf)
    }
}

} // verus!
