//! Messages of the `DBus` daemon, NetworkManager and StatusNotifierItem.
pub mod empty_method_return;
pub mod error_no_method;
pub mod introspect;
pub mod network_manager;
pub mod org_freedesktop_dbus;
pub mod sni_client;
pub mod sni_host;

pub use empty_method_return::EmptyMethodReturn;
pub use error_no_method::ErrorNoMethod;
