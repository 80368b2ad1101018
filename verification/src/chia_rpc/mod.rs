//! The messages exchanged with the Chia daemon over its websocket.

pub mod daemon;
pub mod websocket;
