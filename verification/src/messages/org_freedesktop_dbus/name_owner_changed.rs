//! The `NameOwnerChanged` signal: subscribing to it and reading it.
use super::add_match::add_match_message;
use super::remove_match::remove_match_message;
use super::rule::{MatchRule, RULE_BUFFER_LEN};
use super::subscribe::Subscribe;
use super::unsubscribe::Unsubscribe;
use crate::encoder::{encoded, encoded_len, MessageType};
use crate::error::{DBusError, EncodeError};
use crate::incoming::{IncomingMessage, IncomingValue};
use crate::text::{opt_is, opt_str_is};
use vstd::prelude::*;
use vstd::string::StringSliceAdditionalSpecFns;

verus! {

/// Subscribes to `NameOwnerChanged` signal
pub struct NameOwnerChangedSubscribe;

/// Unsubscribes from `NameOwnerChanged` signal
pub struct NameOwnerChangedUnsubscribe;

/// The match rule for `NameOwnerChanged` signals of the bus daemon.
pub open spec fn name_owner_changed_rule() -> Seq<u8> {
    name_owner_changed_match().text()
}

/// The constraints of that rule.
pub open spec fn name_owner_changed_match() -> MatchRule {
    MatchRule {
        sender: Some("org.freedesktop.DBus".spec_bytes()),
        interface: Some("org.freedesktop.DBus".spec_bytes()),
        path: Some("/org/freedesktop/DBus".spec_bytes()),
        member: Some("NameOwnerChanged".spec_bytes()),
    }
}

impl NameOwnerChangedSubscribe {
    /// Writes the `AddMatch` call for `NameOwnerChanged` into `buf`.
    ///
    /// # Errors
    ///
    /// Returns an error if the message doesn't fit into `buf`.
    pub fn encode(buf: &mut [u8]) -> (r: Result<usize, EncodeError>)
        ensures
            name_owner_changed_rule().len() <= RULE_BUFFER_LEN ==> encoded_len(
                r,
                old(buf)@,
                final(buf)@,
                add_match_message(name_owner_changed_rule()),
            ),
            name_owner_changed_rule().len() > RULE_BUFFER_LEN ==> r is Err,
    {
        Subscribe::encode(
            buf,
            Some("org.freedesktop.DBus"),
            Some("/org/freedesktop/DBus"),
            Some("org.freedesktop.DBus"),
            Some("NameOwnerChanged"),
        )
    }
}

impl NameOwnerChangedUnsubscribe {
    /// Writes the `RemoveMatch` call for `NameOwnerChanged` into `buf`.
    ///
    /// # Errors
    ///
    /// Returns an error if the message doesn't fit into `buf`.
    pub fn encode<'b>(buf: &'b mut [u8]) -> (r: Result<&'b [u8], EncodeError>)
        ensures
            name_owner_changed_rule().len() <= RULE_BUFFER_LEN ==> encoded(
                r,
                old(buf)@,
                final(buf)@,
                remove_match_message(name_owner_changed_rule()),
            ),
            name_owner_changed_rule().len() > RULE_BUFFER_LEN ==> r is Err,
    {
        Unsubscribe::encode(
            (
                Some("org.freedesktop.DBus"),
                Some("/org/freedesktop/DBus"),
                Some("org.freedesktop.DBus"),
                Some("NameOwnerChanged"),
            ),
            buf,
        )
    }
}

/// Ownership transition reported by a `NameOwnerChanged` signal.
#[derive(Debug, Clone, Copy, PartialEq, Eq)]
pub enum NameOwnerChangedSignal<'a> {
    /// A well-known name got an owner.
    Appeared {
        /// Well-known bus name.
        name: &'a str,
        /// New unique owner name.
        owner: &'a str,
    },
    /// A well-known name lost its owner.
    Disappeared {
        /// Well-known bus name.
        name: &'a str,
        /// Previous unique owner name.
        owner: &'a str,
    },
    /// A well-known name changed from one owner to another.
    Changed {
        /// Well-known bus name.
        name: &'a str,
        /// Previous unique owner name.
        old_owner: &'a str,
        /// New unique owner name.
        new_owner: &'a str,
    },
}

/// Error for a `NameOwnerChanged` signal with fewer than three values.
pub open spec fn name_owner_changed_err() -> DBusError {
    DBusError::Other("can't parse NameOwnerChanged signal")
}

/// Whether `m` is a `NameOwnerChanged` signal of the bus daemon.
pub open spec fn is_name_owner_changed(m: IncomingMessage) -> bool {
    &&& m.message_type == MessageType::Signal
    &&& opt_is(m.path, "/org/freedesktop/DBus")
    &&& opt_is(m.interface, "org.freedesktop.DBus")
    &&& opt_is(m.member, "NameOwnerChanged")
}

/// The transition for a name that was owned by `from` and is owned by `to`
/// (an empty string for no owner).
pub open spec fn owner_transition<'a>(name: &'a str, from: &'a str, to: &'a str) -> Option<
    NameOwnerChangedSignal<'a>,
> {
    let was_owned = from.spec_bytes().len() > 0;
    let now_owned = to.spec_bytes().len() > 0;
    if !was_owned && now_owned {
        Some(NameOwnerChangedSignal::Appeared { name, owner: to })
    } else if was_owned && !now_owned {
        Some(NameOwnerChangedSignal::Disappeared { name, owner: from })
    } else if was_owned && now_owned {
        Some(NameOwnerChangedSignal::Changed { name, old_owner: from, new_owner: to })
    } else {
        None
    }
}

/// What `handle` gives for a message.
pub open spec fn name_owner_changed_result<'a>(m: IncomingMessage<'a>) -> Result<
    Option<NameOwnerChangedSignal<'a>>,
    DBusError,
> {
    if !is_name_owner_changed(m) {
        Ok(None)
    } else {
        match m.body {
            None => Err(DBusError::NoBody),
            Some(b) => if b.values@.len() < 3 {
                Err(name_owner_changed_err())
            } else {
                match (b.values@[0], b.values@[1], b.values@[2]) {
                    (
                        IncomingValue::String(alias),
                        IncomingValue::String(from),
                        IncomingValue::String(to),
                    ) => Ok(owner_transition(alias, from, to)),
                    _ => Err(DBusError::WrongValue),
                }
            },
        }
    }
}

impl<'a> NameOwnerChangedSignal<'a> {
    /// The name whose owner changed.
    pub open spec fn spec_name(self) -> &'a str {
        match self {
            NameOwnerChangedSignal::Appeared { name, .. } => name,
            NameOwnerChangedSignal::Disappeared { name, .. } => name,
            NameOwnerChangedSignal::Changed { name, .. } => name,
        }
    }

    /// Parses `message` and returns the ownership transition if it represents a
    /// `NameOwnerChanged` signal.
    ///
    /// # Errors
    ///
    /// Returns an error if the message is malformed.
    pub fn handle(message: IncomingMessage<'a>) -> (r: Result<Option<Self>, DBusError>)
        ensures
            r == name_owner_changed_result(message),
    {
        if !(message.message_type == MessageType::Signal && opt_str_is(
            message.path,
            "/org/freedesktop/DBus",
        ) && opt_str_is(message.interface, "org.freedesktop.DBus") && opt_str_is(
            message.member,
            "NameOwnerChanged",
        )) {
            return Ok(None);
        }
        let body = match message.body {
            Some(b) => b,
            None => return Err(DBusError::NoBody),
        };
        let alias = match body.get(0) {
            Some(v) => v,
            None => return Err(DBusError::Other("can't parse NameOwnerChanged signal")),
        };
        let from = match body.get(1) {
            Some(v) => v,
            None => return Err(DBusError::Other("can't parse NameOwnerChanged signal")),
        };
        let to = match body.get(2) {
            Some(v) => v,
            None => return Err(DBusError::Other("can't parse NameOwnerChanged signal")),
        };
        let alias = match alias {
            IncomingValue::String(s) => s,
            _ => return Err(DBusError::WrongValue),
        };
        let from = match from {
            IncomingValue::String(s) => s,
            _ => return Err(DBusError::WrongValue),
        };
        let to = match to {
            IncomingValue::String(s) => s,
            _ => return Err(DBusError::WrongValue),
        };
        let was_owned = from.as_bytes().len() > 0;
        let now_owned = to.as_bytes().len() > 0;
        if !was_owned && now_owned {
            Ok(Some(Self::Appeared { name: alias, owner: to }))
        } else if was_owned && !now_owned {
            Ok(Some(Self::Disappeared { name: alias, owner: from }))
        } else if was_owned && now_owned {
            Ok(Some(Self::Changed { name: alias, old_owner: from, new_owner: to }))
        } else {
            Ok(None)
        }
    }

    /// Returns `name` field of the signal that is present in each variant
    pub fn name(&self) -> (r: &'a str)
        ensures
            r == self.spec_name(),
    {
        match self {
            NameOwnerChangedSignal::Appeared { name, .. } => name,
            NameOwnerChangedSignal::Disappeared { name, .. } => name,
            NameOwnerChangedSignal::Changed { name, .. } => name,
        }
    }
}


/// Every signal that the `NameOwnerChanged` subscription delivers is taken up
/// by `NameOwnerChangedSignal::handle`: it is read, not passed over.
pub proof fn lemma_name_owner_changed_subscription_handled(m: IncomingMessage)
    ensures
        name_owner_changed_match().admits(m) ==> is_name_owner_changed(m),
{
}

/// A `NameOwnerChanged` signal `(name, from, to)` reports `name` with its
/// previous owner `from` and its new owner `to`, an empty string standing for
/// no owner: a name that had no owner appeared at `to`, one that has none now
/// disappeared from `from`, and one that had and has an owner changed from
/// `from` to `to`.
pub proof fn lemma_name_owner_changed_owners<'a>(m: IncomingMessage<'a>, name: &'a str, from: &'a str, to: &'a str)
    requires
        is_name_owner_changed(m),
        m.body matches Some(b) && b.values@.len() >= 3 && b.values@[0] == IncomingValue::String(name)
            && b.values@[1] == IncomingValue::String(from) && b.values@[2] == IncomingValue::String(to),
    ensures
        from.spec_bytes().len() > 0 && to.spec_bytes().len() > 0 ==> name_owner_changed_result(m)
            == Ok::<Option<NameOwnerChangedSignal>, DBusError>(
            Some(NameOwnerChangedSignal::Changed { old_owner: from, new_owner: to, name }),
        ),
        from.spec_bytes().len() == 0 && to.spec_bytes().len() > 0 ==> name_owner_changed_result(m)
            == Ok::<Option<NameOwnerChangedSignal>, DBusError>(
            Some(NameOwnerChangedSignal::Appeared { owner: to, name }),
        ),
        from.spec_bytes().len() > 0 && to.spec_bytes().len() == 0 ==> name_owner_changed_result(m)
            == Ok::<Option<NameOwnerChangedSignal>, DBusError>(
            Some(NameOwnerChangedSignal::Disappeared { owner: from, name }),
        ),
        from.spec_bytes().len() == 0 && to.spec_bytes().len() == 0 ==> name_owner_changed_result(m)
            == Ok::<Option<NameOwnerChangedSignal>, DBusError>(None),
{
}

} // verus!
