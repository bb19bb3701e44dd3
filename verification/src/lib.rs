//! Bridge between a desktop shell and its local agent process.
//!
//! The shell's user interface cannot open connections itself, so every call it
//! makes is forwarded to an agent listening on a fixed loopback port. This
//! crate holds the decisions of that bridge: which request is sent for a call,
//! what the caller is told once the exchange is over, and how the agent is
//! launched. The network and process work is left to the caller.

pub mod endpoint;
pub mod proxy;
pub mod status;
pub mod supervisor;
pub mod text;
