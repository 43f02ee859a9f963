//! Local bridge that keeps a text file in sync with a browser-hosted code editor.
//!
//! The modules hold the verified coordination logic: the wire vocabulary and its
//! encoding, the per-connection session, the admission gate of the listener, the
//! synchronization controller and the file-watch bridge. Sockets, channels and the
//! terminal interface drive these state machines from the outside.
pub mod config;
pub mod controller;
pub mod listener;
pub mod messages;
pub mod presentation;
pub mod protocol;
pub mod session;
pub mod watcher;
