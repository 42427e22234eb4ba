//! A multi-transport message bus for a PWM actuator controller.
//!
//! Requests arrive from a radio link, an HTTP endpoint, a serial companion
//! board and a timer. Each request is routed to exactly one handler, and
//! the reply, if there is one, goes back to the transport it came from.
//!
//! `rpc` holds the messages, their recycling, the queues and the call
//! envelope; `dispatcher` routes and handles requests; `handlers` holds the
//! call registry and the peripheral line protocol; `hal` holds the board;
//! `ble`, `http` and `script` hold what the transports and the scripting
//! layer decide; `bytes` and `text` hold the byte-string helpers.

pub mod ble;
pub mod bytes;
pub mod dispatcher;
pub mod hal;
pub mod handlers;
pub mod http;
pub mod rpc;
pub mod script;
pub mod text;

