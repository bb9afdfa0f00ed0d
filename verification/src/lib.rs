//! WebRTC transport support for Iroh: the verified decision and bookkeeping
//! logic behind the browser and native facades.

pub mod browser_facade;
pub mod browser_protocol;
pub mod capabilities;
pub mod error;
pub mod js_wire;
pub mod keyed_table;
pub mod main_rtc;
pub mod native_node;
pub mod protocol_transport;
pub mod registry;
pub mod request_tracker;
pub mod rtc_control_wire;
pub mod signaling;
pub mod text;
pub mod worker_bridge;
