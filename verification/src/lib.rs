//! Core of a wallet bridge: a registry for the single live wallet-engine
//! handle, a command dispatcher with whitespace tokenization, a pollable
//! progress relay fed by the send-transaction flow, and the JSON shaping
//! that the surrounding runtime consumes. The wallet engine itself is an
//! outside collaborator reached through the handles and outcomes these
//! modules take and return.
pub mod dispatch;
pub mod height;
pub mod json;
pub mod lifecycle;
pub mod progress;
pub mod registry;
pub mod relay;
pub mod send;
pub mod server_info;
pub mod text;
