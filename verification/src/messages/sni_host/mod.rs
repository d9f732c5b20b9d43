//! The StatusNotifierItem host side: watching items and reading their menus and icons.
pub mod event;
pub mod get_layout;
pub mod icon_name;
pub mod icon_pixmap;
pub mod introspection;
pub mod items_properties_updated;
pub mod layout_updated;
pub mod menu_exchange;
pub mod new_icon;

pub use event::{Event, EventArgs};
pub use get_layout::{GetLayout, GetLayoutItem, GetLayoutList};
pub use icon_name::IconName;
pub use icon_pixmap::{IconPixmap, IconPixmapBytes};
pub use introspection::StatusNotifierWatcherIntrospection;
pub use items_properties_updated::{
    ItemsPropertiesUpdatedSignal, ItemsPropertiesUpdatedSubscribe, ItemsPropertiesUpdatedUnsubscribe,
};
pub use layout_updated::{LayoutUpdatedSignal, LayoutUpdatedSubscribe, LayoutUpdatedUnsubscribe};
pub use new_icon::{NewIconSignal, NewIconSubscribe, NewIconUnsubscribe};
