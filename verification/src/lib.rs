//! A sans-IO D-Bus client library: message encoders and handlers for
//! `org.freedesktop.DBus`, NetworkManager properties and StatusNotifierItem menus.
pub mod encoder;
pub mod error;
pub mod incoming;
pub mod introspectable;
pub mod messages;
pub mod text;
pub mod wire;
