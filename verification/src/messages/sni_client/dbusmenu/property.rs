//! Properties of the `com.canonical.dbusmenu` interface.

use crate::encoder::{
    begin_array, end_array_of, lemma_array_empty, lemma_dict_entry, put_pad, put_sig, put_str,
    put_u32,
};
use crate::text::str_eq;
use crate::wire::{dict_entry, lemma_variant, marshal, Wire};
use vstd::prelude::*;
use vstd::string::StringSliceAdditionalSpecFns;

verus! {

/// A property of the menu object.
#[derive(Clone, Copy, Debug, PartialEq, Eq, Structural)]
pub enum Property {
    /// `Version`
    Version,
    /// `TextDirection`
    TextDirection,
    /// `Status`
    Status,
    /// `IconThemePath`
    IconThemePath,
}

/// Name of a property.
pub open spec fn property_name(p: Property) -> Seq<u8> {
    match p {
        Property::Version => "Version".spec_bytes(),
        Property::TextDirection => "TextDirection".spec_bytes(),
        Property::Status => "Status".spec_bytes(),
        Property::IconThemePath => "IconThemePath".spec_bytes(),
    }
}

/// The property that `name` names, if any.
pub open spec fn property_named(name: Seq<u8>) -> Option<Property> {
    if name == "Version".spec_bytes() {
        Some(Property::Version)
    } else if name == "TextDirection".spec_bytes() {
        Some(Property::TextDirection)
    } else if name == "Status".spec_bytes() {
        Some(Property::Status)
    } else if name == "IconThemePath".spec_bytes() {
        Some(Property::IconThemePath)
    } else {
        None
    }
}

/// Signature of a property's value.
pub open spec fn property_sig(p: Property) -> Seq<u8> {
    match p {
        Property::Version => "u".spec_bytes(),
        Property::TextDirection => "s".spec_bytes(),
        Property::Status => "s".spec_bytes(),
        Property::IconThemePath => "as".spec_bytes(),
    }
}

/// A property's value: protocol version 4, left-to-right text, normal
/// status and no icon theme paths.
pub open spec fn property_value(p: Property) -> Wire {
    match p {
        Property::Version => Wire::UInt32(4),
        Property::TextDirection => Wire::Str("ltr".spec_bytes()),
        Property::Status => Wire::Str("normal".spec_bytes()),
        Property::IconThemePath => Wire::Array(4, Seq::empty()),
    }
}

/// A property's value in a variant.
pub open spec fn property_variant(p: Property) -> Wire {
    Wire::Variant(property_sig(p), Box::new(property_value(p)))
}

/// A property as a dictionary entry `{sv}`.
pub open spec fn property_entry(p: Property) -> Wire {
    dict_entry(property_name(p), property_sig(p), property_value(p))
}

impl Property {
    /// The property named `s`, if any.
    pub fn parse(s: &str) -> (r: Option<Self>)
        ensures
            r == property_named(s.spec_bytes()),
    {
        if str_eq(s, "Version") {
            Some(Self::Version)
        } else if str_eq(s, "TextDirection") {
            Some(Self::TextDirection)
        } else if str_eq(s, "Status") {
            Some(Self::Status)
        } else if str_eq(s, "IconThemePath") {
            Some(Self::IconThemePath)
        } else {
            None
        }
    }

    /// The property's name.
    pub fn as_str(self) -> (r: &'static str)
        ensures
            r.spec_bytes() == property_name(self),
    {
        match self {
            Self::Version => "Version",
            Self::TextDirection => "TextDirection",
            Self::Status => "Status",
            Self::IconThemePath => "IconThemePath",
        }
    }

    /// Appends the property as a dictionary entry `{sv}`.
    pub fn encode_key_value(self, body: &mut Vec<u8>)
        ensures
            final(body)@ == old(body)@ + marshal(old(body)@.len(), property_entry(self)),
    {
        let ghost pos = body@.len();
        put_pad(body, 8);
        self.encode_key(body);
        self.encode_value(body);
        proof {
            lemma_dict_entry(pos, property_name(self), property_sig(self), property_value(self));
            lemma_variant(
                pos + crate::wire::pad_len(pos, 8) + marshal(
                    pos + crate::wire::pad_len(pos, 8),
                    Wire::Str(property_name(self)),
                ).len(),
                property_sig(self),
                property_value(self),
            );
        }
    }

    /// Appends the property's name.
    pub fn encode_key(self, body: &mut Vec<u8>)
        ensures
            final(body)@ == old(body)@ + marshal(old(body)@.len(), Wire::Str(property_name(self))),
    {
        put_str(body, self.as_str());
    }

    /// Appends the property's value as a variant.
    pub fn encode_value(self, body: &mut Vec<u8>)
        ensures
            final(body)@ == old(body)@ + marshal(old(body)@.len(), property_variant(self)),
    {
        let ghost pos = body@.len();
        match self {
            Self::Version => {
                put_sig(body, "u");
                put_u32(body, 4);
            },
            Self::TextDirection => {
                put_sig(body, "s");
                put_str(body, "ltr");
            },
            Self::Status => {
                put_sig(body, "s");
                put_str(body, "normal");
            },
            Self::IconThemePath => {
                put_sig(body, "as");
                let pre = Ghost(body@);
                let paths = begin_array(body, 4);
                proof {
                    lemma_array_empty(pre@, 4);
                }
                end_array_of(body, paths, pre, Ghost(4), Ghost(Seq::empty()));
            },
        }
        proof {
            lemma_variant(pos, property_sig(self), property_value(self));
        }
    }
}

/// A property's name parses back to the property.
pub proof fn lemma_property_name_parses(p: Property)
    ensures
        property_named(property_name(p)) == Some(p),
{
    reveal_strlit("Version");
    reveal_strlit("TextDirection");
    reveal_strlit("Status");
    reveal_strlit("IconThemePath");
    assert(vstd::string::is_ascii("Version"));
    assert(vstd::string::is_ascii("TextDirection"));
    assert(vstd::string::is_ascii("Status"));
    assert(vstd::string::is_ascii("IconThemePath"));
    vstd::string::is_ascii_spec_bytes("Version");
    vstd::string::is_ascii_spec_bytes("TextDirection");
    vstd::string::is_ascii_spec_bytes("Status");
    vstd::string::is_ascii_spec_bytes("IconThemePath");
    assert("TextDirection".spec_bytes()[0] != "IconThemePath".spec_bytes()[0]);
}

} // verus!
