//! Pieces shared by the broker connections: QoS levels, messages, topic
//! rules with a direction, bridge state messages and client settings.

pub mod client;
pub mod message;
pub mod qos;
pub mod state;
pub mod state_lwt;
pub mod topic;
