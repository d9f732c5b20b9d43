//! The menu state that the caller keeps.
use super::event::DBusMenuEvent;
use super::item::{DBusMenuItem, DBusMenuList};
use vstd::prelude::*;

verus! {

/// Server-side menu state for a `com.canonical.dbusmenu` object
pub trait DBusMenuData: Sized {
    /// The revision that `revision` returns.
    spec fn spec_revision(&self) -> u32;

    /// The root items that `menu` returns.
    spec fn spec_menu(&self) -> Seq<DBusMenuItem<'_>>;

    /// Layout revision. Increment this whenever the menu layout changes
    fn revision(&self) -> (r: u32)
        ensures
            r == self.spec_revision(),
    ;

    /// Returns the root menu list
    fn menu(&self) -> (r: &DBusMenuList<'_>)
        ensures
            r.items@ == self.spec_menu(),
    ;

    /// What `about_to_show(id)` answers in this state.
    spec fn spec_about_to_show(&self, id: i32) -> bool;

    /// The state after `about_to_show(id)`.
    spec fn after_about_to_show(&self, id: i32) -> Self;

    /// The state after `event(event)`.
    spec fn after_event(&self, event: DBusMenuEvent) -> Self;

    /// Called for `AboutToShow`; return true when the host should refetch layout
    fn about_to_show(&mut self, id: i32) -> (r: bool)
        ensures
            r == old(self).spec_about_to_show(id),
            *final(self) == old(self).after_about_to_show(id),
    ;

    /// Called for dbusmenu `Event` method calls
    fn event(&mut self, event: DBusMenuEvent<'_>)
        ensures
            *final(self) == old(self).after_event(event),
    ;
}

/// Menu state held as plain values: a revision and the root items. It
/// never asks for an update on `AboutToShow` and ignores events.
pub struct MenuState<'a> {
    /// Layout revision
    pub revision: u32,
    /// Root menu list
    pub menu: DBusMenuList<'a>,
}

impl<'a> DBusMenuData for MenuState<'a> {
    open spec fn spec_revision(&self) -> u32 {
        self.revision
    }

    open spec fn spec_menu(&self) -> Seq<DBusMenuItem<'_>> {
        self.menu.items@
    }

    open spec fn spec_about_to_show(&self, id: i32) -> bool {
        false
    }

    open spec fn after_about_to_show(&self, id: i32) -> Self {
        *self
    }

    open spec fn after_event(&self, event: DBusMenuEvent) -> Self {
        *self
    }

    fn revision(&self) -> (r: u32) {
        self.revision
    }

    fn menu(&self) -> (r: &DBusMenuList<'_>) {
        &self.menu
    }

    fn about_to_show(&mut self, id: i32) -> (r: bool) {
        false
    }

    fn event(&mut self, event: DBusMenuEvent<'_>) {
    }
}

} // verus!
