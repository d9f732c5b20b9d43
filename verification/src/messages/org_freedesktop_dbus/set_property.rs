//! `org.freedesktop.DBus.Properties.Set`.
use super::get_property::properties_interface;
use crate::encoder::{
    call_header, encode_into, encoded, lemma_marshal_seq_two, message, put_bool, put_i32, put_sig,
    put_str, put_u32, put_u8, MessageEncoder,
};
use crate::error::EncodeError;
use crate::wire::{lemma_marshal_seq_push, lemma_variant, marshal, Wire};
use vstd::prelude::*;
use vstd::string::StringSliceAdditionalSpecFns;

verus! {

/// Represents a request to set a single property on a given `DBus` object
pub struct SetProperty;

/// A property value to set, written as a variant.
#[derive(Debug, Clone, Copy)]
pub enum PropertyValue<'a> {
    /// `y`
    Byte(u8),
    /// `b`
    Bool(bool),
    /// `i`
    Int32(i32),
    /// `u`
    UInt32(u32),
    /// `s`
    Str(&'a str),
}

/// The variant that holds a property value.
pub open spec fn property_value_wire(v: PropertyValue) -> Wire {
    match v {
        PropertyValue::Byte(b) => Wire::Variant("y".spec_bytes(), Box::new(Wire::Byte(b))),
        PropertyValue::Bool(b) => Wire::Variant("b".spec_bytes(), Box::new(Wire::Bool(b))),
        PropertyValue::Int32(i) => Wire::Variant("i".spec_bytes(), Box::new(Wire::Int32(i))),
        PropertyValue::UInt32(u) => Wire::Variant("u".spec_bytes(), Box::new(Wire::UInt32(u))),
        PropertyValue::Str(s) => Wire::Variant("s".spec_bytes(), Box::new(Wire::Str(s.spec_bytes()))),
    }
}

/// Appends a property value as a variant.
pub fn put_property_value(v: &mut Vec<u8>, value: PropertyValue)
    ensures
        final(v)@ == old(v)@ + marshal(old(v)@.len(), property_value_wire(value)),
{
    let ghost pos = v@.len();
    match value {
        PropertyValue::Byte(b) => {
            put_sig(v, "y");
            put_u8(v, b);
            proof { lemma_variant(pos, "y".spec_bytes(), Wire::Byte(b)); }
        },
        PropertyValue::Bool(b) => {
            put_sig(v, "b");
            put_bool(v, b);
            proof { lemma_variant(pos, "b".spec_bytes(), Wire::Bool(b)); }
        },
        PropertyValue::Int32(i) => {
            put_sig(v, "i");
            put_i32(v, i);
            proof { lemma_variant(pos, "i".spec_bytes(), Wire::Int32(i)); }
        },
        PropertyValue::UInt32(u) => {
            put_sig(v, "u");
            put_u32(v, u);
            proof { lemma_variant(pos, "u".spec_bytes(), Wire::UInt32(u)); }
        },
        PropertyValue::Str(s) => {
            put_sig(v, "s");
            put_str(v, s);
            proof { lemma_variant(pos, "s".spec_bytes(), Wire::Str(s.spec_bytes())); }
        },
    }
    assert(v@ =~= old(v)@ + marshal(old(v)@.len(), property_value_wire(value)));
}

/// The `Set` call for one property.
pub open spec fn set_property_message(
    destination: Seq<u8>,
    path: Seq<u8>,
    interface: Seq<u8>,
    property: Seq<u8>,
    value: PropertyValue,
) -> Seq<u8> {
    message(
        call_header(destination, path, properties_interface(), "Set".spec_bytes(), "ssv".spec_bytes()),
        seq![Wire::Str(interface), Wire::Str(property), property_value_wire(value)],
    )
}

impl SetProperty {
    /// Writes a `Set` call for `(destination, path, interface, property, value)` into `buf`.
    ///
    /// # Errors
    ///
    /// Returns an error if the message doesn't fit into `buf`.
    pub fn encode<'b>(
        args: (&str, &str, &str, &str, PropertyValue),
        buf: &'b mut [u8],
    ) -> (r: Result<&'b [u8], EncodeError>)
        ensures
            encoded(
                r,
                old(buf)@,
                final(buf)@,
                set_property_message(
                    args.0.spec_bytes(),
                    args.1.spec_bytes(),
                    args.2.spec_bytes(),
                    args.3.spec_bytes(),
                    args.4,
                ),
            ),
    {
        let (destination, path, interface, property, value) = args;
        let mut e = MessageEncoder::method_call(destination, path, "org.freedesktop.DBus.Properties", "Set");
        e.signature = Some("ssv");
        put_str(&mut e.body, interface);
        put_str(&mut e.body, property);
        let ghost two = seq![Wire::Str(interface.spec_bytes()), Wire::Str(property.spec_bytes())];
        proof {
            lemma_marshal_seq_two(0, Wire::Str(interface.spec_bytes()), Wire::Str(property.spec_bytes()));
        }
        put_property_value(&mut e.body, value);
        proof {
            lemma_marshal_seq_push(0, two, property_value_wire(value));
            assert(two.push(property_value_wire(value)) =~= seq![
                Wire::Str(interface.spec_bytes()),
                Wire::Str(property.spec_bytes()),
                property_value_wire(value),
            ]);
        }
        encode_into(&e, buf)
    }
}

} // verus!
