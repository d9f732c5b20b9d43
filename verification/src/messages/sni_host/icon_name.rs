//! The `IconName` property of an SNI item.
use crate::encoder::encoded_len;
use crate::error::{DBusError, EncodeError};
use crate::incoming::IncomingValue;
use crate::messages::org_freedesktop_dbus::get_property::get_property_message;
use crate::messages::org_freedesktop_dbus::GetProperty;
use vstd::prelude::*;
use vstd::string::StringSliceAdditionalSpecFns;

verus! {

/// `IconName` property of the (K)SNI item
pub struct IconName<'a> {
    destination: &'a str,
}

impl<'a> IconName<'a> {
    /// Bus name of the item.
    pub closed spec fn spec_destination(&self) -> &'a str {
        self.destination
    }

    /// Constructor
    pub fn new(destination: &'a str) -> (r: Self)
        ensures
            r.spec_destination() == destination,
    {
        Self { destination }
    }

    /// Writes the `Get` call for the property into `buf`.
    ///
    /// # Errors
    ///
    /// Returns an error if the message doesn't fit into `buf`.
    pub fn encode(&self, buf: &mut [u8]) -> (r: Result<usize, EncodeError>)
        ensures
            encoded_len(
                r,
                old(buf)@,
                final(buf)@,
                get_property_message(
                    self.spec_destination().spec_bytes(),
                    "/StatusNotifierItem".spec_bytes(),
                    "org.kde.StatusNotifierItem".spec_bytes(),
                    "IconName".spec_bytes(),
                ),
            ),
    {
        GetProperty::encode(buf, self.destination, "/StatusNotifierItem", "org.kde.StatusNotifierItem", "IconName")
    }

    /// Reads the property's value: a string.
    ///
    /// # Errors
    ///
    /// Returns `WrongValue` if the value has another type.
    pub fn map<'v>(value: IncomingValue<'v>) -> (r: Result<&'v str, DBusError>)
        ensures
            r == match value {
                IncomingValue::String(v) => Ok::<&str, DBusError>(v),
                _ => Err(DBusError::WrongValue),
            },
    {
        match value {
            IncomingValue::String(v) => Ok(v),
            _ => Err(DBusError::WrongValue),
        }
    }
}

} // verus!
