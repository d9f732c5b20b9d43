//! Built-in `org.freedesktop.DBus` requests and signals.
pub mod add_match;
pub mod bus;
pub mod get_all_properties;
pub mod get_property;
pub mod hello;
pub mod name_has_owner;
pub mod name_owner_changed;
pub mod remove_match;
pub mod request_name;
pub mod rule;
pub mod set_property;
pub mod subscribe;
pub mod unsubscribe;

pub use add_match::AddMatch;
pub use get_all_properties::GetAllProperties;
pub use get_property::GetProperty;
pub use hello::Hello;
pub use name_has_owner::NameHasOwner;
pub use name_owner_changed::{
    NameOwnerChangedSignal, NameOwnerChangedSubscribe, NameOwnerChangedUnsubscribe,
};
pub use remove_match::RemoveMatch;
pub use request_name::RequestName;
pub use rule::Rule;
pub use set_property::{PropertyValue, SetProperty};
pub use subscribe::Subscribe;
pub use unsubscribe::Unsubscribe;
