//! The verified core of an interactive terminal for a serial line.
//!
//! The library decides; its host performs. Every operation on the device, the
//! keyboard or the screen is carried out by the host, which hands each outcome
//! back as a plain value and is told what to do next.

pub mod arguments;
pub mod command;
pub mod error;
pub mod event;
pub mod path_complete;
pub mod serial_port;
pub mod session;
pub mod terminal;
pub mod text;
