//! Signaling: the messages that set a stream up and the decisions behind them.

pub mod channel;
pub mod client;
pub mod handler;
pub mod messages;
pub mod payload;
pub mod sdp;
