//! The host-signal adapter: the portal's view of the reactive cell that
//! holds the current host element, or none — absence is a valid value,
//! not an error.
//!
//! The reactive machinery itself (subscriptions, change notification)
//! is the outside signal's concern; the application registers the
//! portal's step as the change callback. The model records the current
//! value. A tracked and an untracked read return the same value — the
//! difference between them is only whether a reactive dependency is
//! recorded, which has no observable effect on the value read.

use vstd::prelude::*;

verus! {

/// The current host state: an element of the document, or none.
pub struct HostWatcher {
    /// The value the signal currently holds.
    pub current: Option<usize>,
}

impl HostWatcher {
    /// A watcher over a signal that currently holds `initial`.
    pub fn new(initial: Option<usize>) -> (w: HostWatcher)
        ensures
            w.current == initial,
    {
        HostWatcher { current: initial }
    }

    /// The signal changed: record the new host state. The application
    /// calls this, then re-runs the portal step with the new value.
    pub fn set(&mut self, host: Option<usize>)
        ensures
            final(self).current == host,
    {
        self.current = host;
    }

    /// Reactive read of the current host state.
    pub fn current(&self) -> (h: Option<usize>)
        ensures
            h == self.current,
    {
        self.current
    }

    /// Untracked read: the same value, without recording a dependency.
    pub fn current_untracked(&self) -> (h: Option<usize>)
        ensures
            h == self.current,
    {
        self.current
    }
}

} // verus!
