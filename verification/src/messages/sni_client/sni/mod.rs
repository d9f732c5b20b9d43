//! A StatusNotifierItem: its properties, signals and request handling.
pub mod activate;
pub mod category;
pub mod data;
pub mod icon_pixmap;
pub mod introspection;
pub mod new_icon;
pub mod property;
pub mod register_status_notifier_item;
pub mod status;
pub mod watcher;

pub use activate::StatusNotifierActivateEvent;
pub use category::StatusNotifierItemCategory;
pub use data::{ItemState, StatusNotifierItemData};
pub use icon_pixmap::IconPixmap;
pub use introspection::StatusNotifierItemHandler;
pub use new_icon::NewIconSignal;
pub use property::Property;
pub use register_status_notifier_item::RegisterStatusNotifierItem;
pub use status::StatusNotifierItemStatus;
pub use watcher::StatusNotifierWatcher;
