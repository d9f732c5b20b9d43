//! Events that a host sends for menu items.
use crate::text::str_eq;
use vstd::prelude::*;
use vstd::string::StringSliceAdditionalSpecFns;

verus! {

/// A dbusmenu event kind sent by a host for a menu item
#[derive(Debug, Clone, Copy)]
pub enum DBusMenuEventKind<'a> {
    /// The item was activated
    Clicked,
    /// The item was hovered
    Hovered,
    /// A submenu item was opened
    Opened,
    /// A submenu item was closed
    Closed,
    /// An event kind not modeled by this library
    Other(&'a str),
}

/// An event sent by a dbusmenu host for a menu item
#[derive(Debug, Clone, Copy)]
pub struct DBusMenuEvent<'a> {
    /// Target menu item id
    pub id: i32,
    /// Event kind
    pub kind: DBusMenuEventKind<'a>,
    /// Host-provided event timestamp
    pub timestamp: u32,
}

/// The kind of event that the event id `s` names.
pub open spec fn event_kind<'a>(s: &'a str) -> DBusMenuEventKind<'a> {
    if s.spec_bytes() == "clicked".spec_bytes() {
        DBusMenuEventKind::Clicked
    } else if s.spec_bytes() == "hovered".spec_bytes() {
        DBusMenuEventKind::Hovered
    } else if s.spec_bytes() == "opened".spec_bytes() {
        DBusMenuEventKind::Opened
    } else if s.spec_bytes() == "closed".spec_bytes() {
        DBusMenuEventKind::Closed
    } else {
        DBusMenuEventKind::Other(s)
    }
}

impl<'a> DBusMenuEventKind<'a> {
    /// The kind of event that `event_id` names.
    pub fn from_str(event_id: &'a str) -> (r: Self)
        ensures
            r == event_kind(event_id),
    {
        if str_eq(event_id, "clicked") {
            Self::Clicked
        } else if str_eq(event_id, "hovered") {
            Self::Hovered
        } else if str_eq(event_id, "opened") {
            Self::Opened
        } else if str_eq(event_id, "closed") {
            Self::Closed
        } else {
            Self::Other(event_id)
        }
    }
}

/// Each event id that the dbusmenu protocol defines names the kind of the
/// same name, and any other id is kept, unchanged, as `Other`.
pub proof fn lemma_event_kind_names<'a>(s: &'a str)
    ensures
        s.spec_bytes() == "clicked".spec_bytes() ==> event_kind(s) is Clicked,
        s.spec_bytes() == "hovered".spec_bytes() ==> event_kind(s) is Hovered,
        s.spec_bytes() == "opened".spec_bytes() ==> event_kind(s) is Opened,
        s.spec_bytes() == "closed".spec_bytes() ==> event_kind(s) is Closed,
        s.spec_bytes() != "clicked".spec_bytes() && s.spec_bytes() != "hovered".spec_bytes()
            && s.spec_bytes() != "opened".spec_bytes() && s.spec_bytes() != "closed".spec_bytes()
            ==> event_kind(s) == DBusMenuEventKind::Other(s),
{
    reveal_strlit("clicked");
    reveal_strlit("hovered");
    reveal_strlit("opened");
    reveal_strlit("closed");
    assert(vstd::string::is_ascii("clicked"));
    assert(vstd::string::is_ascii("hovered"));
    assert(vstd::string::is_ascii("opened"));
    assert(vstd::string::is_ascii("closed"));
    vstd::string::is_ascii_spec_bytes("clicked");
    vstd::string::is_ascii_spec_bytes("hovered");
    vstd::string::is_ascii_spec_bytes("opened");
    vstd::string::is_ascii_spec_bytes("closed");
    assert("clicked".spec_bytes()[0] != "hovered".spec_bytes()[0]);
    assert("clicked".spec_bytes()[0] != "opened".spec_bytes()[0]);
    assert("opened".spec_bytes()[0] != "hovered".spec_bytes()[0]);
    assert("closed".spec_bytes()[0] != "hovered".spec_bytes()[0]);
    assert("closed".spec_bytes()[0] != "opened".spec_bytes()[0]);
}

} // verus!
