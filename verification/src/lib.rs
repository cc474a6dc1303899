//! Session layer of a battery-powered RFID attendance terminal.
//!
//! The crate holds the decisions of the terminal's connection to its timing
//! server: the message schema, the outbound queue, the tagged response bus,
//! the request correlator, the firmware-update applier and the connection
//! state machine. Sockets, timers and flash stay with the caller, which
//! performs the actions that the functions here hand back.

pub mod state;
pub mod json;
pub mod structs;
pub mod codec;
pub mod entropy;
pub mod frame;
pub mod queue;
pub mod bus;
pub mod request;
pub mod ota;
pub mod inbound;
pub mod locator;
pub mod manager;
pub mod session;
pub mod policy;
