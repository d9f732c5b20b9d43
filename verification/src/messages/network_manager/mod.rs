//! NetworkManager properties.
pub mod active_access_point;
pub mod active_connection_type;
pub mod primary_connection;
pub mod primary_device;
pub mod refresh_rate_ms;
pub mod ssid;
pub mod strength;
pub mod tx_bytes;

pub use active_access_point::ActiveAccessPoint;
pub use active_connection_type::ActiveConnectionType;
pub use primary_connection::PrimaryConnection;
pub use primary_device::PrimaryDevice;
pub use refresh_rate_ms::RefreshRateMs;
pub use ssid::SSID;
pub use strength::Strength;
pub use tx_bytes::TxBytes;
