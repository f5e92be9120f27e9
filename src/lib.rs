//! Cursor sharing between two machines whose screens sit edge to edge.
//!
//! The library decides which machine owns the pointer, maps between each
//! machine's pixel space and the shared virtual desktop, and frames the
//! event stream that travels between the two processes.

pub mod capturer;
pub mod config;
pub mod coordinate;
pub mod event;
pub mod injector;
pub mod virtual_mouse;
pub mod processor;
pub mod wire;
pub mod network;
