//! A `com.canonical.dbusmenu` server: menu items, requests and replies.
pub mod data;
pub mod event;
pub mod get_group_properties;
pub mod get_layout;
pub mod handler;
pub mod item;
pub mod layout_updated;
pub mod property;
pub mod request;

pub use data::{DBusMenuData, MenuState};
pub use event::{DBusMenuEvent, DBusMenuEventKind};
pub use get_group_properties::GetGroupProperties;
pub use get_layout::GetLayout;
pub use item::{DBusMenuItem, DBusMenuList};
pub use layout_updated::LayoutUpdatedSignal;
pub use property::Property;
