//! The handlers that the dispatcher routes requests to.

pub mod lovense;
pub mod mac;
pub mod rpc;
