//! The event model: everything the main loop can dequeue from the
//! aggregated stream — terminal ticks, local input, and per-host
//! connection-lifecycle and sampling outcomes.

use vstd::prelude::*;

verus! {

/// Outcome of one sampling attempt on a connected host.
#[derive(Clone, Debug, PartialEq, Eq)]
pub enum LoadEvent {
    /// The metric command ran with exit code zero; carries its stdout.
    Load(String),
    /// The channel could not be opened, the command failed, or it exited
    /// nonzero; carries the cause.
    LoadError(String),
}

/// A step in one host's connection lifecycle.
#[derive(Clone, Debug, PartialEq, Eq)]
pub enum ConnectionEvent {
    /// A connection attempt has begun.
    Connecting,
    /// A connection attempt succeeded; the host is ready for sampling.
    Connected,
    /// A connection attempt failed; carries the cause.
    ConnectionError(String),
}

/// The code of a pressed key, reduced to the keys the dashboard reads.
#[derive(Clone, Copy, Debug, PartialEq, Eq)]
pub enum KeyCode {
    Esc,
    Char(char),
    Right,
    Left,
    /// Any key the dashboard does not interpret.
    Other,
}

/// A key press: its code, and whether the control modifier alone was held.
#[derive(Clone, Copy, Debug, PartialEq, Eq)]
pub struct KeyPress {
    pub code: KeyCode,
    pub ctrl: bool,
}

/// One event of the aggregated stream the main loop consumes.
#[derive(Clone, Debug, PartialEq, Eq)]
pub enum Event {
    /// Periodic wake with no payload; triggers a render pass.
    Tick,
    /// Key press.
    Key(KeyPress),
    /// Mouse click/scroll; the dashboard reads nothing of it.
    Mouse,
    /// Terminal resize.
    Resize(u16, u16),
    /// A connection-lifecycle step of the named host.
    HostStatus(String, ConnectionEvent),
    /// A sampling outcome of the named host.
    LoadStatus(String, LoadEvent),
}

} // verus!
