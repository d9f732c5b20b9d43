//! The StatusNotifierItem side: the item and its dbusmenu.
pub mod dbusmenu;
pub mod sni;
