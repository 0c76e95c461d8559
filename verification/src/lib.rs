//! Protocol core of a client for TP-Link HS110 (and HS100) smart plugs.
//!
//! The plug speaks a length-prefixed, XOR-obfuscated JSON protocol over TCP.
//! This crate builds the requests and interprets the replies; moving the bytes
//! over a socket is left to the caller, who sends what [`HS110::request`]
//! makes of a [`Command`] and hands the received bytes to the operation that
//! the command belongs to.
pub mod cipher;
pub mod client;
pub mod command;
pub mod emeter;
pub mod error;
pub mod frame;
pub mod json;
pub mod response;
pub mod state;
pub mod text;
pub mod transport;

pub use client::HS110;
pub use command::Command;
pub use state::{HwVersion, LedState, PowerState};
