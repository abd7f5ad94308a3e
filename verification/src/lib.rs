//! Verified core of a terminal dashboard that watches the load of a fleet of
//! remote hosts.
//!
//! The crate holds the parts of the dashboard that carry its logic: the
//! status store that maps each host to its most recent status ([`app`]), the
//! event model and the rules that turn events into store updates
//! ([`event`], [`handler`]), and the per-host connection/polling state
//! machine ([`monitor`]). Terminal I/O, the remote-shell transport and task
//! scheduling live outside the library and speak to it through these types.

pub mod app;
pub mod event;
pub mod handler;
pub mod monitor;
