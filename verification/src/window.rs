//! Plain-value stand-ins for the host window system's window identity and
//! window-event types. The bridge only ever copies a window identifier and
//! reads an event's focus and position payloads, so both are modeled as
//! plain data; the embedding application converts the host library's values
//! into these at the boundary.

use vstd::prelude::*;

verus! {

/// Identity of a host window, as a plain integer handle.
#[derive(Clone, Copy, PartialEq, Eq, Hash, Debug, Structural)]
pub struct WindowId(pub u64);

/// A host window-system event, reduced to the payloads the platform
/// accessibility adapter reads: window movement and focus changes. Every
/// other event kind is carried as `Other` and merely forwarded.
#[derive(Clone, Copy, PartialEq, Eq, Debug, Structural)]
pub enum WindowEvent {
    /// The window moved to the given outer position.
    Moved { x: i64, y: i64 },
    /// The window gained (`true`) or lost (`false`) keyboard focus.
    Focused(bool),
    /// Any other window event; the adapter does not read its payload.
    Other,
}

} // verus!
