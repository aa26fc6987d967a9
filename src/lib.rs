//! Inspect a node's unspent outputs and lock them one at a time.
//!
//! The verified core: the selection machine over the output list, the
//! event-source clock, the JSON-RPC request framing and response decoding,
//! and the control-loop decisions. Terminal, keyboard and HTTP live outside.
pub mod selection;
pub mod json;
pub mod rpc;
pub mod event;
pub mod control;
