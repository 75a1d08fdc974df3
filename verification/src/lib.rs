//! Core logic of an MQTT broker: clock and identifier helpers, PEM key
//! material loading, the per-connection frame loop decisions, and the
//! dispatch of incoming packets to the protocol-specific services.

pub mod tools;
pub mod command;
pub mod frame;
pub mod tls;
