//! Properties of the `org.kde.StatusNotifierItem` interface.
use super::category::category_name;
use super::data::StatusNotifierItemData;
use super::icon_pixmap::{pixmap_values, IconPixmap};
use super::status::status_name;
use crate::encoder::{lemma_dict_entry, put_bool, put_pad, put_sig, put_str};
use crate::text::str_eq;
use crate::wire::{dict_entry, lemma_variant, marshal, pad_len, Wire};
use vstd::prelude::*;
use vstd::string::StringSliceAdditionalSpecFns;

verus! {

/// A property of the item.
#[derive(Clone, Copy, Debug, PartialEq, Eq, Structural)]
pub enum Property {
    /// `Category`
    Category,
    /// `Id`
    Id,
    /// `Title`
    Title,
    /// `Status`
    Status,
    /// `IconName`
    IconName,
    /// `IconPixmap`
    IconPixmap,
    /// `Menu`
    Menu,
    /// `ItemIsMenu`
    ItemIsMenu,
}

/// Name of a property.
pub open spec fn item_property_name(p: Property) -> Seq<u8> {
    match p {
        Property::Category => "Category".spec_bytes(),
        Property::Id => "Id".spec_bytes(),
        Property::Title => "Title".spec_bytes(),
        Property::Status => "Status".spec_bytes(),
        Property::IconName => "IconName".spec_bytes(),
        Property::IconPixmap => "IconPixmap".spec_bytes(),
        Property::Menu => "Menu".spec_bytes(),
        Property::ItemIsMenu => "ItemIsMenu".spec_bytes(),
    }
}

/// The property that `name` names, if any.
pub open spec fn item_property_named(name: Seq<u8>) -> Option<Property> {
    if name == "Category".spec_bytes() {
        Some(Property::Category)
    } else if name == "Id".spec_bytes() {
        Some(Property::Id)
    } else if name == "Title".spec_bytes() {
        Some(Property::Title)
    } else if name == "Status".spec_bytes() {
        Some(Property::Status)
    } else if name == "IconName".spec_bytes() {
        Some(Property::IconName)
    } else if name == "IconPixmap".spec_bytes() {
        Some(Property::IconPixmap)
    } else if name == "Menu".spec_bytes() {
        Some(Property::Menu)
    } else if name == "ItemIsMenu".spec_bytes() {
        Some(Property::ItemIsMenu)
    } else {
        None
    }
}

/// Signature of a property's value.
pub open spec fn item_property_sig(p: Property) -> Seq<u8> {
    match p {
        Property::IconPixmap => "a(iiay)".spec_bytes(),
        Property::Menu => "o".spec_bytes(),
        Property::ItemIsMenu => "b".spec_bytes(),
        _ => "s".spec_bytes(),
    }
}

/// A property's value for the item state `d`.
pub open spec fn item_property_value<D: StatusNotifierItemData>(p: Property, d: &D) -> Wire {
    match p {
        Property::Category => Wire::Str(category_name(d.spec_category())),
        Property::Id => Wire::Str(d.spec_id()),
        Property::Title => Wire::Str(d.spec_title()),
        Property::Status => Wire::Str(status_name(d.spec_status())),
        Property::IconName => Wire::Str(d.spec_icon_name()),
        Property::IconPixmap => Wire::Array(8, pixmap_values(d.spec_icon_pixmap())),
        Property::Menu => Wire::Str(d.spec_menu()),
        Property::ItemIsMenu => Wire::Bool(d.spec_item_is_menu()),
    }
}

/// A property's value in a variant.
pub open spec fn item_property_variant<D: StatusNotifierItemData>(p: Property, d: &D) -> Wire {
    Wire::Variant(item_property_sig(p), Box::new(item_property_value(p, d)))
}

/// A property as a dictionary entry `{sv}`.
pub open spec fn item_property_entry<D: StatusNotifierItemData>(p: Property, d: &D) -> Wire {
    dict_entry(item_property_name(p), item_property_sig(p), item_property_value(p, d))
}

impl Property {
    /// The property named `s`, if any.
    pub fn parse(s: &str) -> (r: Option<Self>)
        ensures
            r == item_property_named(s.spec_bytes()),
    {
        if str_eq(s, "Category") {
            Some(Self::Category)
        } else if str_eq(s, "Id") {
            Some(Self::Id)
        } else if str_eq(s, "Title") {
            Some(Self::Title)
        } else if str_eq(s, "Status") {
            Some(Self::Status)
        } else if str_eq(s, "IconName") {
            Some(Self::IconName)
        } else if str_eq(s, "IconPixmap") {
            Some(Self::IconPixmap)
        } else if str_eq(s, "Menu") {
            Some(Self::Menu)
        } else if str_eq(s, "ItemIsMenu") {
            Some(Self::ItemIsMenu)
        } else {
            None
        }
    }

    /// The property's name.
    pub fn as_str(self) -> (r: &'static str)
        ensures
            r.spec_bytes() == item_property_name(self),
    {
        match self {
            Self::Category => "Category",
            Self::Id => "Id",
            Self::Title => "Title",
            Self::Status => "Status",
            Self::IconName => "IconName",
            Self::IconPixmap => "IconPixmap",
            Self::Menu => "Menu",
            Self::ItemIsMenu => "ItemIsMenu",
        }
    }

    /// Appends the property as a dictionary entry `{sv}`.
    pub fn encode_key_value<D: StatusNotifierItemData>(self, body: &mut Vec<u8>, data: &D)
        ensures
            final(body)@ == old(body)@ + marshal(old(body)@.len(), item_property_entry(self, data)),
    {
        let ghost pos = body@.len();
        put_pad(body, 8);
        self.encode_key(body);
        self.encode_value(body, data);
        proof {
            lemma_dict_entry(pos, item_property_name(self), item_property_sig(self), item_property_value(self, data));
            lemma_variant(
                pos + pad_len(pos, 8) + marshal(pos + pad_len(pos, 8), Wire::Str(item_property_name(self))).len(),
                item_property_sig(self),
                item_property_value(self, data),
            );
        }
    }

    /// Appends the property's name.
    pub fn encode_key(self, body: &mut Vec<u8>)
        ensures
            final(body)@ == old(body)@ + marshal(old(body)@.len(), Wire::Str(item_property_name(self))),
    {
        put_str(body, self.as_str());
    }

    /// Appends the property's value for `data` as a variant.
    pub fn encode_value<D: StatusNotifierItemData>(self, body: &mut Vec<u8>, data: &D)
        ensures
            final(body)@ == old(body)@ + marshal(old(body)@.len(), item_property_variant(self, data)),
    {
        let ghost pos = body@.len();
        match self {
            Self::Category => {
                put_sig(body, "s");
                put_str(body, data.category().as_str());
            },
            Self::Id => {
                put_sig(body, "s");
                put_str(body, data.id());
            },
            Self::Title => {
                put_sig(body, "s");
                put_str(body, data.title());
            },
            Self::Status => {
                put_sig(body, "s");
                put_str(body, data.status().as_str());
            },
            Self::IconName => {
                put_sig(body, "s");
                put_str(body, data.icon_name());
            },
            Self::IconPixmap => {
                put_sig(body, "a(iiay)");
                IconPixmap::encode(body, data.icon_pixmap());
            },
            Self::Menu => {
                put_sig(body, "o");
                put_str(body, data.menu());
            },
            Self::ItemIsMenu => {
                put_sig(body, "b");
                put_bool(body, data.item_is_menu());
            },
        }
        proof {
            lemma_variant(pos, item_property_sig(self), item_property_value(self, data));
        }
    }
}

/// A property's name parses back to the property.
pub proof fn lemma_item_property_name_parses(p: Property)
    ensures
        item_property_named(item_property_name(p)) == Some(p),
{
    reveal_strlit("Category");
    reveal_strlit("Id");
    reveal_strlit("Title");
    reveal_strlit("Status");
    reveal_strlit("IconName");
    reveal_strlit("IconPixmap");
    reveal_strlit("Menu");
    reveal_strlit("ItemIsMenu");
    assert(vstd::string::is_ascii("Category"));
    assert(vstd::string::is_ascii("Id"));
    assert(vstd::string::is_ascii("Title"));
    assert(vstd::string::is_ascii("Status"));
    assert(vstd::string::is_ascii("IconName"));
    assert(vstd::string::is_ascii("IconPixmap"));
    assert(vstd::string::is_ascii("Menu"));
    assert(vstd::string::is_ascii("ItemIsMenu"));
    vstd::string::is_ascii_spec_bytes("Category");
    vstd::string::is_ascii_spec_bytes("Id");
    vstd::string::is_ascii_spec_bytes("Title");
    vstd::string::is_ascii_spec_bytes("Status");
    vstd::string::is_ascii_spec_bytes("IconName");
    vstd::string::is_ascii_spec_bytes("IconPixmap");
    vstd::string::is_ascii_spec_bytes("Menu");
    vstd::string::is_ascii_spec_bytes("ItemIsMenu");
    assert("IconName".spec_bytes()[4] != "IconPixmap".spec_bytes()[4]);
}

} // verus!
