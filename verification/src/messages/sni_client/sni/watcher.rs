//! Ownership of the SNI watcher name.
use crate::error::DBusError;
use crate::incoming::IncomingMessage;
use crate::messages::org_freedesktop_dbus::name_owner_changed::{
    name_owner_changed_result, NameOwnerChangedSignal,
};
use crate::text::{str_eq, str_is};
use vstd::prelude::*;
use vstd::string::StringSliceAdditionalSpecFns;

verus! {

/// SNI watcher ownership event
#[derive(Debug, Clone, Copy, PartialEq, Eq)]
pub enum StatusNotifierWatcher<'a> {
    /// The watcher appeared
    Appeared {
        /// New unique owner name
        owner: &'a str,
    },
    /// The watcher disappeared
    Disappeared {
        /// Previous unique owner name
        owner: &'a str,
    },
}

/// The watcher event for an ownership transition of the watcher name; a
/// change of owner is reported as the new owner appearing.
pub open spec fn watcher_event<'a>(s: NameOwnerChangedSignal<'a>) -> StatusNotifierWatcher<'a> {
    match s {
        NameOwnerChangedSignal::Appeared { owner, .. } => StatusNotifierWatcher::Appeared { owner },
        NameOwnerChangedSignal::Disappeared { owner, .. } => StatusNotifierWatcher::Disappeared { owner },
        NameOwnerChangedSignal::Changed { new_owner, .. } => StatusNotifierWatcher::Appeared { owner: new_owner },
    }
}

/// What `handle` gives for a message.
pub open spec fn watcher_result<'a>(m: IncomingMessage<'a>) -> Result<Option<StatusNotifierWatcher<'a>>, DBusError> {
    match name_owner_changed_result(m) {
        Err(e) => Err(e),
        Ok(None) => Ok(None),
        Ok(Some(s)) => if str_is(s.spec_name(), "org.kde.StatusNotifierWatcher") {
            Ok(Some(watcher_event(s)))
        } else {
            Ok(None)
        },
    }
}

impl<'a> StatusNotifierWatcher<'a> {
    /// Parses a message and returns an SNI watcher event if it matches
    ///
    /// # Errors
    ///
    /// Returns an error if the message is malformed
    pub fn handle(message: IncomingMessage<'a>) -> (r: Result<Option<Self>, DBusError>)
        ensures
            r == watcher_result(message),
    {
        let name_owner_changed = match NameOwnerChangedSignal::handle(message) {
            Ok(Some(s)) => s,
            Ok(None) => return Ok(None),
            Err(e) => return Err(e),
        };
        if !str_eq(name_owner_changed.name(), "org.kde.StatusNotifierWatcher") {
            return Ok(None);
        }
        let event = match name_owner_changed {
            NameOwnerChangedSignal::Appeared { owner, .. } => Self::Appeared { owner },
            NameOwnerChangedSignal::Disappeared { owner, .. } => Self::Disappeared { owner },
            NameOwnerChangedSignal::Changed { new_owner, .. } => Self::Appeared { owner: new_owner },
        };
        Ok(Some(event))
    }
}

} // verus!
