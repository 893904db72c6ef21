//! Relay of fixed-format remote-control command frames: a command table
//! mapping logical names to 24-byte wire frames, a single-writer relay
//! channel that serializes concurrently produced frames onto one outbound
//! connection in submission order, a dispatcher that resolves names and
//! submits frames, and a two-state activation toggle that atomically
//! activates or deactivates the full set of trigger bindings.

pub mod bindings;
pub mod controller;
pub mod dispatch;
pub mod frame;
pub mod relay;
pub mod table;
pub mod toggle;
