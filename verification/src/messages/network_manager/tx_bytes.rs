//! Bytes sent by a device.
use crate::encoder::encoded_len;
use crate::error::{DBusError, EncodeError};
use crate::incoming::IncomingValue;
use crate::messages::org_freedesktop_dbus::get_property::get_property_message;
use crate::messages::org_freedesktop_dbus::GetProperty;
use vstd::prelude::*;
use vstd::string::StringSliceAdditionalSpecFns;

verus! {

/// `TxBytes` propertty of an access point
pub struct TxBytes<'a> {
    path: &'a str,
}

impl<'a> TxBytes<'a> {
    /// Path of the object that has the property.
    pub closed spec fn spec_path(&self) -> &'a str {
        self.path
    }

    /// Constructor
    pub fn new(path: &'a str) -> (r: Self)
        ensures
            r.spec_path() == path,
    {
        Self { path }
    }

    /// Writes the `Get` call for the property into `buf`.
    ///
    /// # Errors
    ///
    /// Returns an error if the message doesn't fit into `buf`.
    pub fn encode(&self, buf: &mut [u8]) -> (r: Result<usize, EncodeError>)
        ensures
            encoded_len(
                r,
                old(buf)@,
                final(buf)@,
                get_property_message(
                    "org.freedesktop.NetworkManager".spec_bytes(),
                    self.spec_path().spec_bytes(),
                    "org.freedesktop.NetworkManager.Device.Statistics".spec_bytes(),
                    "TxBytes".spec_bytes(),
                ),
            ),
    {
        GetProperty::encode(buf, "org.freedesktop.NetworkManager", self.path, "org.freedesktop.NetworkManager.Device.Statistics", "TxBytes")
    }

    /// Reads the property's value: a `u64`.
    ///
    /// # Errors
    ///
    /// Returns `WrongValue` if the value has another type.
    pub fn map<'v>(value: IncomingValue<'v>) -> (r: Result<u64, DBusError>)
        ensures
            r == match value {
                IncomingValue::UInt64(v) => Ok::<u64, DBusError>(v),
                _ => Err(DBusError::WrongValue),
            },
    {
        match value {
            IncomingValue::UInt64(v) => Ok(v),
            _ => Err(DBusError::WrongValue),
        }
    }
}

} // verus!
