//! Lifecycle core of a desktop application shell.
//!
//! The shell keeps a splash window and a main window, minimizes to a tray
//! icon instead of quitting when a window is closed, refuses to start twice,
//! and drives a check / download / install / clear-cache update pipeline.
//! This crate holds the decision logic: which windows become visible or
//! hidden, when the process may terminate, and which update steps are legal.
//! Platform work (window calls, tray, notifications, network transfers) is
//! performed by a host event loop that feeds events in and carries the
//! returned actions out.

pub mod errors;
pub mod guard;
pub mod lifecycle;
pub mod registry;
pub mod updater;
