//! Recognising the standard introspection, properties and peer calls that
//! reach an object on the bus.
use crate::encoder::MessageType;
use crate::error::DBusError;
use crate::incoming::{arg_str, str_at, IncomingMessage};
use crate::text::{is_unique_name, spec_is_unique_name, str_eq, str_is};
use vstd::prelude::*;
use vstd::string::StringSliceAdditionalSpecFns;

verus! {

/// Answers the standard interfaces for the connection known on the bus as `destination`
#[derive(Clone, Copy)]
pub struct IntrospectibleObjectAt<'a> {
    destination: &'a str,
}

/// A call of one of the standard interfaces
#[derive(Debug, Clone, Copy, PartialEq, Eq)]
pub enum IntrospectibleObjectAtRequest<'a> {
    /// `org.freedesktop.DBus.Introspectable.Introspect` of the object at `path`
    Introspect {
        /// Path of the object
        path: &'a str,
    },
    /// `org.freedesktop.DBus.Properties.GetAll`
    GetAllProperties {
        /// Path of the object
        path: &'a str,
        /// Interface whose properties are asked for
        interface: &'a str,
    },
    /// `org.freedesktop.DBus.Properties.Get`
    GetProperty {
        /// Path of the object
        path: &'a str,
        /// Interface of the property
        interface: &'a str,
        /// Name of the property
        property_name: &'a str,
    },
    /// `org.freedesktop.DBus.Properties.Set`
    SetProperty,
    /// `org.freedesktop.DBus.Peer.Ping`
    Ping,
    /// `org.freedesktop.DBus.Peer.GetMachineId`
    GetMachineId,
    /// A call of a standard interface that cannot be read
    Error(DBusError),
}

/// The call of a standard interface that `m` makes of the connection known as
/// `destination`, with the call's serial and sender.
pub open spec fn standard_request<'m>(m: IncomingMessage<'m>, destination: &str) -> Option<
    (u32, &'m str, IntrospectibleObjectAtRequest<'m>),
> {
    if m.message_type != MessageType::MethodCall || m.destination is None || m.sender is None {
        None
    } else if !(str_is(m.destination->Some_0, destination) || spec_is_unique_name(m.destination->Some_0)) {
        None
    } else if m.path is None || m.interface is None || m.member is None {
        None
    } else {
        let path = m.path->Some_0;
        let interface = m.interface->Some_0;
        let member = m.member->Some_0;
        let req = if str_is(interface, "org.freedesktop.DBus.Introspectable") {
            if str_is(member, "Introspect") {
                Some(IntrospectibleObjectAtRequest::Introspect { path })
            } else {
                Some(IntrospectibleObjectAtRequest::Error(DBusError::UnknownMember))
            }
        } else if str_is(interface, "org.freedesktop.DBus.Properties") {
            if str_is(member, "Get") {
                match m.body {
                    None => Some(IntrospectibleObjectAtRequest::Error(DBusError::NoBody)),
                    Some(b) => match (arg_str(b.values@, 0), arg_str(b.values@, 1)) {
                        (Some(i), Some(p)) => Some(
                            IntrospectibleObjectAtRequest::GetProperty { path, interface: i, property_name: p },
                        ),
                        _ => Some(IntrospectibleObjectAtRequest::Error(DBusError::WrongValue)),
                    },
                }
            } else if str_is(member, "GetAll") {
                match m.body {
                    None => Some(IntrospectibleObjectAtRequest::Error(DBusError::NoBody)),
                    Some(b) => match arg_str(b.values@, 0) {
                        Some(i) => Some(IntrospectibleObjectAtRequest::GetAllProperties { path, interface: i }),
                        None => Some(IntrospectibleObjectAtRequest::Error(DBusError::WrongValue)),
                    },
                }
            } else if str_is(member, "Set") {
                Some(IntrospectibleObjectAtRequest::SetProperty)
            } else {
                Some(IntrospectibleObjectAtRequest::Error(DBusError::UnknownMember))
            }
        } else if str_is(interface, "org.freedesktop.DBus.Peer") {
            if str_is(member, "Ping") {
                Some(IntrospectibleObjectAtRequest::Ping)
            } else if str_is(member, "GetMachineId") {
                Some(IntrospectibleObjectAtRequest::GetMachineId)
            } else {
                Some(IntrospectibleObjectAtRequest::Error(DBusError::UnknownMember))
            }
        } else {
            None
        };
        match req {
            Some(r) => Some((m.serial, m.sender->Some_0, r)),
            None => None,
        }
    }
}

impl<'a> IntrospectibleObjectAt<'a> {
    /// The connection's name on the bus.
    pub closed spec fn spec_destination(&self) -> &'a str {
        self.destination
    }

    /// Constructor
    pub fn new(destination: &'a str) -> (r: Self)
        ensures
            r.spec_destination() == destination,
    {
        Self { destination }
    }

    /// The call of a standard interface that `message` makes, with its serial
    /// and sender; `None` if `message` is another message or is not addressed
    /// to this connection (by its name or a unique name).
    pub fn handle<'m>(&self, message: IncomingMessage<'m>) -> (r: Option<(u32, &'m str, IntrospectibleObjectAtRequest<'m>)>)
        ensures
            r == standard_request(message, self.spec_destination()),
    {
        if message.message_type != MessageType::MethodCall {
            return None;
        }
        let dst = match message.destination {
            Some(d) => d,
            None => return None,
        };
        let sender = match message.sender {
            Some(s) => s,
            None => return None,
        };
        if !str_eq(dst, self.destination) && !is_unique_name(dst) {
            return None;
        }
        let path = match message.path {
            Some(p) => p,
            None => return None,
        };
        let interface = match message.interface {
            Some(i) => i,
            None => return None,
        };
        let member = match message.member {
            Some(m) => m,
            None => return None,
        };
        let req = if str_eq(interface, "org.freedesktop.DBus.Introspectable") {
            if str_eq(member, "Introspect") {
                IntrospectibleObjectAtRequest::Introspect { path }
            } else {
                IntrospectibleObjectAtRequest::Error(DBusError::UnknownMember)
            }
        } else if str_eq(interface, "org.freedesktop.DBus.Properties") {
            if str_eq(member, "Get") {
                match message.body {
                    None => IntrospectibleObjectAtRequest::Error(DBusError::NoBody),
                    Some(b) => match (str_at(b.values, 0), str_at(b.values, 1)) {
                        (Some(i), Some(p)) => IntrospectibleObjectAtRequest::GetProperty {
                            path,
                            interface: i,
                            property_name: p,
                        },
                        _ => IntrospectibleObjectAtRequest::Error(DBusError::WrongValue),
                    },
                }
            } else if str_eq(member, "GetAll") {
                match message.body {
                    None => IntrospectibleObjectAtRequest::Error(DBusError::NoBody),
                    Some(b) => match str_at(b.values, 0) {
                        Some(i) => IntrospectibleObjectAtRequest::GetAllProperties { path, interface: i },
                        None => IntrospectibleObjectAtRequest::Error(DBusError::WrongValue),
                    },
                }
            } else if str_eq(member, "Set") {
                IntrospectibleObjectAtRequest::SetProperty
            } else {
                IntrospectibleObjectAtRequest::Error(DBusError::UnknownMember)
            }
        } else if str_eq(interface, "org.freedesktop.DBus.Peer") {
            if str_eq(member, "Ping") {
                IntrospectibleObjectAtRequest::Ping
            } else if str_eq(member, "GetMachineId") {
                IntrospectibleObjectAtRequest::GetMachineId
            } else {
                IntrospectibleObjectAtRequest::Error(DBusError::UnknownMember)
            }
        } else {
            return None;
        };
        Some((message.serial, sender, req))
    }
}

} // verus!
