//! Protocol core of a USB bridge that reads a lathe controller's DRO bus.

pub mod bridge_proto;
pub mod bridge_proto_laws;
pub mod bridge_service;
pub mod bridge_service_laws;
pub mod cadence_laws;
pub mod crc32;
pub mod dro_decode;
pub mod frame_pump;
pub mod host_monitor;
pub mod host_transport;
pub mod le_bytes;
pub mod live_bridge;
pub mod mock_bus;
pub mod pins;
pub mod protocol;
pub mod transport;
pub mod transport_mock;
pub mod transport_pio;
pub mod wrap;
