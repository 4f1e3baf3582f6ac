//! The decisions of the bridge's tasks: routing broker events, replaying
//! the cache, serving cache commands and watching the broker connections.
//! Each task's loop, its channels and its broker client live in the
//! program around the library, which hands every event to these functions
//! and carries out the commands they return.

pub mod acks;
pub mod broker;
pub mod cache;
pub mod messages;
pub mod mqtt_actor;
pub mod replay;
pub mod router;
