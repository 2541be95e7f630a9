//! Control plane of a four-joint robotic manipulator: framing of the TCP
//! traffic, the Wi-Fi mode policy, the session rules of the transport, the
//! rules of the configuration store and the pacing of the motion core, each
//! with a proved contract.
//!
//! Nothing here touches a socket, the radio, the flash or a timer. Each task
//! of the firmware keeps its waiting and its I/O, hands what happened to the
//! rules of this library, and does what they answer.

pub mod api;
pub mod cli;
pub mod configurator;
pub mod connectors;
pub mod link;
pub mod manager;
pub mod mechanics_config;
pub mod network;
pub mod positioner;
pub mod quantities;
pub mod radio;
pub mod request;
pub mod response;
pub mod text;
pub mod transport;
pub mod units;
pub mod varint;
pub mod wifi_config;

pub use text::String;
pub use varint::varint_size;
