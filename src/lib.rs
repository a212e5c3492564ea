//! Keeps a local driver-compatibility configuration file in step with a remote
//! copy, and brackets the file replacement with a stop and a restart of the two
//! remote-desktop services that hold it open.
//!
//! The library decides; the caller performs. Every operation that touches the
//! network, the disk or the service manager is returned as a command for the
//! caller to carry out, and its outcome is handed back as an event.
pub mod config;
pub mod date;
pub mod position;
pub mod service;
pub mod update;
