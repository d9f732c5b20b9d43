//! The signal strength of an access point.
use crate::encoder::encoded_len;
use crate::error::{DBusError, EncodeError};
use crate::incoming::IncomingValue;
use crate::messages::org_freedesktop_dbus::get_property::get_property_message;
use crate::messages::org_freedesktop_dbus::GetProperty;
use vstd::prelude::*;
use vstd::string::StringSliceAdditionalSpecFns;

verus! {

/// `Strength` propertty of an access point
pub struct Strength<'a> {
    path: &'a str,
}

impl<'a> Strength<'a> {
    /// Path of the object that has the property.
    pub closed spec fn spec_path(&self) -> &'a str {
        self.path
    }

    /// Constructor
    pub fn new(path: &'a str) -> (r: Self)
        ensures
            r.spec_path() == path,
    {
        Self { path }
    }

    /// Writes the `Get` call for the property into `buf`.
    ///
    /// # Errors
    ///
    /// Returns an error if the message doesn't fit into `buf`.
    pub fn encode(&self, buf: &mut [u8]) -> (r: Result<usize, EncodeError>)
        ensures
            encoded_len(
                r,
                old(buf)@,
                final(buf)@,
                get_property_message(
                    "org.freedesktop.NetworkManager".spec_bytes(),
                    self.spec_path().spec_bytes(),
                    "org.freedesktop.NetworkManager.AccessPoint".spec_bytes(),
                    "Strength".spec_bytes(),
                ),
            ),
    {
        GetProperty::encode(buf, "org.freedesktop.NetworkManager", self.path, "org.freedesktop.NetworkManager.AccessPoint", "Strength")
    }

    /// Reads the property's value: a byte.
    ///
    /// # Errors
    ///
    /// Returns `WrongValue` if the value has another type.
    pub fn map<'v>(value: IncomingValue<'v>) -> (r: Result<u8, DBusError>)
        ensures
            r == match value {
                IncomingValue::Byte(v) => Ok::<u8, DBusError>(v),
                _ => Err(DBusError::WrongValue),
            },
    {
        match value {
            IncomingValue::Byte(v) => Ok(v),
            _ => Err(DBusError::WrongValue),
        }
    }
}

} // verus!
