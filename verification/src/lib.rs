//! Connectivity core of a small network-attached device.
//!
//! The crate holds the decisions that keep such a device connected and
//! responsive: backoff scheduling, the wireless link and broker session
//! state machines, the bounded outbound queue, button classification and
//! the bridge for inbound commands. Every component is a plain value
//! that is driven by ticks and events; the caller performs the radio,
//! broker and pin operations and reports their outcome back.

pub mod clock;
pub mod command;
pub mod config;
pub mod device;
pub mod event_loop;
pub mod fault;
pub mod form;
pub mod input;
pub mod message;
pub mod network;
pub mod queue;
pub mod retry;
pub mod session;
