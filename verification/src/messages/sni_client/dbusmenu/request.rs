//! Requests that a host sends to a `com.canonical.dbusmenu` object.
use super::event::{event_kind, DBusMenuEvent, DBusMenuEventKind};
use super::property::{property_named, Property};
use crate::encoder::MessageType;
use crate::error::DBusError;
use crate::incoming::{
    arg_array, arg_i32, arg_is_variant, arg_str, arg_u32, array_at, i32_at, str_at, u32_at,
    variant_at, IncomingArrayValue, IncomingMessage, IncomingValue,
};
use crate::text::{is_unique_name, spec_is_unique_name, str_eq, str_is};
use vstd::prelude::*;
use vstd::string::StringSliceAdditionalSpecFns;

verus! {

/// A request to the menu object.
#[derive(Clone, Copy)]
pub enum Request<'a> {
    /// `Properties.GetAll` for the menu interface
    GetAllProperties,
    /// `Properties.Get` of one property
    GetProperty { property: Property },
    /// `GetLayout`
    GetLayout { parent: i32, depth: i32 },
    /// `GetGroupProperties` for some ids
    GetGroupProperties { ids: IncomingArrayValue<'a> },
    /// `AboutToShow` of one item
    AboutToShow { id: i32 },
    /// `AboutToShowGroup` of some items
    AboutToShowGroup { ids: IncomingArrayValue<'a> },
    /// `Event` for one item
    Event { event: DBusMenuEvent<'a> },
    /// `EventGroup`: several events
    EventGroup { events: IncomingArrayValue<'a> },
}

/// Whether a call addressed to `actual` is for us at `destination`: by our
/// name or by a unique connection name.
pub open spec fn destination_matches(actual: Option<&str>, destination: &str) -> bool {
    actual matches Some(a) && (str_is(a, destination) || spec_is_unique_name(a))
}

/// `GetAll`: the interface argument must be the menu interface.
pub open spec fn get_all_request<'a>(vals: Seq<IncomingValue<'a>>) -> Result<Option<Request<'a>>, DBusError> {
    match arg_str(vals, 0) {
        Some(i) => if str_is(i, "com.canonical.dbusmenu") {
            Ok(Some(Request::GetAllProperties))
        } else {
            Err(DBusError::WrongInterface)
        },
        None => Err(DBusError::WrongValue),
    }
}

/// `Get`: interface and property name, the interface being the menu interface.
pub open spec fn get_request<'a>(vals: Seq<IncomingValue<'a>>) -> Result<Option<Request<'a>>, DBusError> {
    match (arg_str(vals, 0), arg_str(vals, 1)) {
        (Some(i), Some(p)) => if !str_is(i, "com.canonical.dbusmenu") {
            Err(DBusError::WrongInterface)
        } else {
            match property_named(p.spec_bytes()) {
                Some(property) => Ok(Some(Request::GetProperty { property })),
                None => Err(DBusError::NoPropertyName),
            }
        },
        _ => Err(DBusError::WrongValue),
    }
}

/// `GetLayout`: parent id, depth and property names.
pub open spec fn get_layout_request<'a>(vals: Seq<IncomingValue<'a>>) -> Result<Option<Request<'a>>, DBusError> {
    match (arg_i32(vals, 0), arg_i32(vals, 1), arg_array(vals, 2)) {
        (Some(parent), Some(depth), Some(_)) => Ok(Some(Request::GetLayout { parent, depth })),
        _ => Err(DBusError::WrongValue),
    }
}

/// `GetGroupProperties`: ids and property names.
pub open spec fn group_properties_request<'a>(vals: Seq<IncomingValue<'a>>) -> Result<Option<Request<'a>>, DBusError> {
    match (arg_array(vals, 0), arg_array(vals, 1)) {
        (Some(ids), Some(_)) => Ok(Some(Request::GetGroupProperties { ids })),
        _ => Err(DBusError::WrongValue),
    }
}

/// `AboutToShow`: an id.
pub open spec fn about_to_show_request<'a>(vals: Seq<IncomingValue<'a>>) -> Result<Option<Request<'a>>, DBusError> {
    match arg_i32(vals, 0) {
        Some(id) => Ok(Some(Request::AboutToShow { id })),
        None => Err(DBusError::WrongValue),
    }
}

/// `AboutToShowGroup`: ids.
pub open spec fn about_to_show_group_request<'a>(vals: Seq<IncomingValue<'a>>) -> Result<Option<Request<'a>>, DBusError> {
    match arg_array(vals, 0) {
        Some(ids) => Ok(Some(Request::AboutToShowGroup { ids })),
        None => Err(DBusError::WrongValue),
    }
}

/// `Event`: id, event id, data and timestamp.
pub open spec fn event_request<'a>(vals: Seq<IncomingValue<'a>>) -> Result<Option<Request<'a>>, DBusError> {
    match (arg_i32(vals, 0), arg_str(vals, 1), arg_u32(vals, 3)) {
        (Some(id), Some(e), Some(timestamp)) => if arg_is_variant(vals, 2) {
            Ok(Some(Request::Event { event: DBusMenuEvent { id, kind: event_kind(e), timestamp } }))
        } else {
            Err(DBusError::WrongValue)
        },
        _ => Err(DBusError::WrongValue),
    }
}

/// `EventGroup`: events.
pub open spec fn event_group_request<'a>(vals: Seq<IncomingValue<'a>>) -> Result<Option<Request<'a>>, DBusError> {
    match arg_array(vals, 0) {
        Some(events) => Ok(Some(Request::EventGroup { events })),
        None => Err(DBusError::WrongValue),
    }
}

/// The request for a call of `member` on `interface` with body values `vals`
/// (`None` when the call has no body).
pub open spec fn member_request<'a>(
    interface: &str,
    member: &str,
    vals: Option<Seq<IncomingValue<'a>>>,
) -> Result<Option<Request<'a>>, DBusError> {
    let props = str_is(interface, "org.freedesktop.DBus.Properties");
    let menu = str_is(interface, "com.canonical.dbusmenu");
    let known = props && (str_is(member, "GetAll") || str_is(member, "Get")) || menu && (str_is(
        member,
        "GetLayout",
    ) || str_is(member, "GetGroupProperties") || str_is(member, "AboutToShow") || str_is(
        member,
        "AboutToShowGroup",
    ) || str_is(member, "Event") || str_is(member, "EventGroup"));
    if known {
        match vals {
            None => Err(DBusError::NoBody),
            Some(v) => if props && str_is(member, "GetAll") {
                get_all_request(v)
            } else if props && str_is(member, "Get") {
                get_request(v)
            } else if str_is(member, "GetLayout") {
                get_layout_request(v)
            } else if str_is(member, "GetGroupProperties") {
                group_properties_request(v)
            } else if str_is(member, "AboutToShow") {
                about_to_show_request(v)
            } else if str_is(member, "AboutToShowGroup") {
                about_to_show_group_request(v)
            } else if str_is(member, "Event") {
                event_request(v)
            } else {
                event_group_request(v)
            },
        }
    } else if menu || props || str_is(interface, "org.freedesktop.DBus.Peer") {
        Err(DBusError::UnknownMember)
    } else {
        Ok(None)
    }
}

/// The request that `m` makes of the menu object at `path`, known on the bus as `destination`.
pub open spec fn menu_request<'a>(m: IncomingMessage<'a>, destination: &str, path: &str) -> Result<
    Option<Request<'a>>,
    DBusError,
> {
    if !(m.message_type == MessageType::MethodCall && (m.path matches Some(p) && str_is(p, path))
        && destination_matches(m.destination, destination)) {
        Ok(None)
    } else if m.interface is None {
        Err(DBusError::NoInterface)
    } else if m.member is None {
        Err(DBusError::NoMember)
    } else {
        member_request(
            m.interface->Some_0,
            m.member->Some_0,
            match m.body {
                Some(b) => Some(b.values@),
                None => None,
            },
        )
    }
}

impl<'a> Request<'a> {
    /// Parses `message` as a request to the menu object at `path`, known on the bus as `destination`.
    ///
    /// # Errors
    ///
    /// Returns an error if the message calls the menu, properties or peer
    /// interface but is malformed or calls an unknown member.
    pub fn parse(message: IncomingMessage<'a>, destination: &str, path: &str) -> (r: Result<Option<Self>, DBusError>)
        ensures
            r == menu_request(message, destination, path),
    {
        let destination_ok = match message.destination {
            Some(actual) => str_eq(actual, destination) || is_unique_name(actual),
            None => false,
        };
        let path_ok = match message.path {
            Some(p) => str_eq(p, path),
            None => false,
        };
        if !(message.message_type == MessageType::MethodCall && path_ok && destination_ok) {
            return Ok(None);
        }
        let interface = match message.interface {
            Some(i) => i,
            None => return Err(DBusError::NoInterface),
        };
        let member = match message.member {
            Some(m) => m,
            None => return Err(DBusError::NoMember),
        };
        let props = str_eq(interface, "org.freedesktop.DBus.Properties");
        let menu = str_eq(interface, "com.canonical.dbusmenu");
        let get_all = props && str_eq(member, "GetAll");
        let get = props && str_eq(member, "Get");
        let get_layout = menu && str_eq(member, "GetLayout");
        let group_properties = menu && str_eq(member, "GetGroupProperties");
        let about_to_show = menu && str_eq(member, "AboutToShow");
        let about_to_show_group = menu && str_eq(member, "AboutToShowGroup");
        let event = menu && str_eq(member, "Event");
        let event_group = menu && str_eq(member, "EventGroup");
        if !(get_all || get || get_layout || group_properties || about_to_show || about_to_show_group
            || event || event_group) {
            if menu || props || str_eq(interface, "org.freedesktop.DBus.Peer") {
                return Err(DBusError::UnknownMember);
            } else {
                return Ok(None);
            }
        }
        let vals = match message.body {
            Some(b) => b.values,
            None => return Err(DBusError::NoBody),
        };
        if get_all {
            match str_at(vals, 0) {
                Some(i) => if str_eq(i, "com.canonical.dbusmenu") {
                    Ok(Some(Self::GetAllProperties))
                } else {
                    Err(DBusError::WrongInterface)
                },
                None => Err(DBusError::WrongValue),
            }
        } else if get {
            match (str_at(vals, 0), str_at(vals, 1)) {
                (Some(i), Some(p)) => if !str_eq(i, "com.canonical.dbusmenu") {
                    Err(DBusError::WrongInterface)
                } else {
                    match Property::parse(p) {
                        Some(property) => Ok(Some(Self::GetProperty { property })),
                        None => Err(DBusError::NoPropertyName),
                    }
                },
                _ => Err(DBusError::WrongValue),
            }
        } else if get_layout {
            match (i32_at(vals, 0), i32_at(vals, 1), array_at(vals, 2)) {
                (Some(parent), Some(depth), Some(_)) => Ok(Some(Self::GetLayout { parent, depth })),
                _ => Err(DBusError::WrongValue),
            }
        } else if group_properties {
            match (array_at(vals, 0), array_at(vals, 1)) {
                (Some(ids), Some(_)) => Ok(Some(Self::GetGroupProperties { ids })),
                _ => Err(DBusError::WrongValue),
            }
        } else if about_to_show {
            match i32_at(vals, 0) {
                Some(id) => Ok(Some(Self::AboutToShow { id })),
                None => Err(DBusError::WrongValue),
            }
        } else if about_to_show_group {
            match array_at(vals, 0) {
                Some(ids) => Ok(Some(Self::AboutToShowGroup { ids })),
                None => Err(DBusError::WrongValue),
            }
        } else if event {
            match (i32_at(vals, 0), str_at(vals, 1), u32_at(vals, 3)) {
                (Some(id), Some(e), Some(timestamp)) => if variant_at(vals, 2) {
                    Ok(
                        Some(
                            Self::Event {
                                event: DBusMenuEvent { id, kind: DBusMenuEventKind::from_str(e), timestamp },
                            },
                        ),
                    )
                } else {
                    Err(DBusError::WrongValue)
                },
                _ => Err(DBusError::WrongValue),
            }
        } else {
            match array_at(vals, 0) {
                Some(events) => Ok(Some(Self::EventGroup { events })),
                None => Err(DBusError::WrongValue),
            }
        }
    }
}

} // verus!
