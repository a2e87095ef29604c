//! The core of a service that connects this computer with phones and other devices.
//!
//! The core decides; it does not read files, wait, or speak to the network. What happens is
//! handed to [`KdeConnectCore`](kdeconnect::KdeConnectCore), which turns it into a
//! [`Task`](task::Task). A task is carried out one step at a time. Between two steps the program
//! around the core does what the step asked for, and other tasks may have their turn.
//!
//! * [`connection`], [`device_map`], [`channel`]: the live connections and how they end.
//! * [`plan`]: which operations follow on what.
//! * [`state`]: what the core remembers, and how each operation changes it.
//! * [`kdeconnect`]: the core itself.
//! * [`plugin_interface`], [`plugin_set`], [`plugins`]: who takes which packet.
//! * [`storage`]: what is read back from disk and what is cleaned up.
//! * [`laws`]: what holds of all this together.
pub mod channel;
pub mod connection;
pub mod device;
pub mod device_map;
pub mod event;
pub mod kdeconnect;
pub mod laws;
pub mod plan;
pub mod plugin_interface;
pub mod plugin_set;
pub mod plugins;
pub mod protocol;
pub mod state;
pub mod storage;
pub mod task;
pub mod text;

pub use crate::kdeconnect::KdeConnectCore;
pub use crate::protocol::{PacketType, ProtocolPacket};
pub use crate::storage::cleanup_device_data;
