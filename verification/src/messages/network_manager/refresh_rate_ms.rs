//! Setting the statistics refresh rate of a device.
use crate::encoder::encoded;
use crate::error::EncodeError;
use crate::messages::org_freedesktop_dbus::set_property::{
    set_property_message, PropertyValue, SetProperty,
};
use vstd::prelude::*;
use vstd::string::StringSliceAdditionalSpecFns;

verus! {

/// `RefreshRateMs` property of a device
pub struct RefreshRateMs;

/// The `Set` call of `RefreshRateMs` on the device at `path`.
pub open spec fn refresh_rate_message(path: Seq<u8>, value: u32) -> Seq<u8> {
    set_property_message(
        "org.freedesktop.NetworkManager".spec_bytes(),
        path,
        "org.freedesktop.NetworkManager.Device.Statistics".spec_bytes(),
        "RefreshRateMs".spec_bytes(),
        PropertyValue::UInt32(value),
    )
}

impl RefreshRateMs {
    /// Writes the `Set` call for `(path, value)` into `buf`.
    ///
    /// # Errors
    ///
    /// Returns an error if the message doesn't fit into `buf`.
    pub fn encode<'b>(args: (&str, u32), buf: &'b mut [u8]) -> (r: Result<&'b [u8], EncodeError>)
        ensures
            encoded(r, old(buf)@, final(buf)@, refresh_rate_message(args.0.spec_bytes(), args.1)),
    {
        let (path, value) = args;
        SetProperty::encode(
            (
                "org.freedesktop.NetworkManager",
                path,
                "org.freedesktop.NetworkManager.Device.Statistics",
                "RefreshRateMs",
                PropertyValue::UInt32(value),
            ),
            buf,
        )
    }
}

} // verus!
