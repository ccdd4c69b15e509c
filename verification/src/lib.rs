//! Connection-lifecycle and state-synchronization engine for a networked
//! indicator-light device.
//!
//! The device keeps an addressable LED output, connects to a message broker,
//! periodically reports its own status, and accepts remote commands that
//! change the displayed color.  This crate holds the verified core of that
//! device: the shared status record, the broker-event state machine, the
//! cooperative-cancellation loop logic, and the wire codec for the status
//! report and the incoming color command.  Hardware drivers, the network
//! stack, and thread plumbing live outside the crate and interact with it
//! through plain values.

pub mod clock;
pub mod codec;
pub mod config;
pub mod led;
pub mod message_controller;
pub mod status;
pub mod status_store;
pub mod wifi_control;
