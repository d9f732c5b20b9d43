//! The first device of an active connection.
use crate::encoder::encoded_len;
use crate::error::{DBusError, EncodeError};
use crate::incoming::IncomingValue;
use crate::messages::org_freedesktop_dbus::get_property::get_property_message;
use crate::messages::org_freedesktop_dbus::GetProperty;
use vstd::prelude::*;
use vstd::string::StringSliceAdditionalSpecFns;

verus! {

/// The first item of `Devices` property of a connection
pub struct PrimaryDevice<'a> {
    path: &'a str,
}

/// Error for a connection without devices.
pub open spec fn no_device_error() -> DBusError {
    DBusError::Other("expected at least one device")
}

impl<'a> PrimaryDevice<'a> {
    /// Path of the object that has the property.
    pub closed spec fn spec_path(&self) -> &'a str {
        self.path
    }

    /// Constructor
    pub fn new(path: &'a str) -> (r: Self)
        ensures
            r.spec_path() == path,
    {
        Self { path }
    }

    /// Writes the `Get` call for the property into `buf`.
    ///
    /// # Errors
    ///
    /// Returns an error if the message doesn't fit into `buf`.
    pub fn encode(&self, buf: &mut [u8]) -> (r: Result<usize, EncodeError>)
        ensures
            encoded_len(
                r,
                old(buf)@,
                final(buf)@,
                get_property_message(
                    "org.freedesktop.NetworkManager".spec_bytes(),
                    self.spec_path().spec_bytes(),
                    "org.freedesktop.NetworkManager.Connection.Active".spec_bytes(),
                    "Devices".spec_bytes(),
                ),
            ),
    {
        GetProperty::encode(
            buf,
            "org.freedesktop.NetworkManager",
            self.path,
            "org.freedesktop.NetworkManager.Connection.Active",
            "Devices",
        )
    }

    /// Reads the property's value: the first object path of an array.
    ///
    /// # Errors
    ///
    /// Returns `WrongValue` if the value is not an array or its first item
    /// not an object path, and an error if the array is empty.
    pub fn map<'v>(value: IncomingValue<'v>) -> (r: Result<&'v str, DBusError>)
        ensures
            r == match value {
                IncomingValue::Array(a) => if a.items@.len() == 0 {
                    Err(no_device_error())
                } else {
                    match a.items@[0] {
                        IncomingValue::ObjectPath(d) => Ok::<&str, DBusError>(d),
                        _ => Err(DBusError::WrongValue),
                    }
                },
                _ => Err(DBusError::WrongValue),
            },
    {
        let devices = match value {
            IncomingValue::Array(a) => a,
            _ => return Err(DBusError::WrongValue),
        };
        if devices.items.len() == 0 {
            return Err(DBusError::Other("expected at least one device"));
        }
        match devices.items[0] {
            IncomingValue::ObjectPath(d) => Ok(d),
            _ => Err(DBusError::WrongValue),
        }
    }
}

} // verus!
