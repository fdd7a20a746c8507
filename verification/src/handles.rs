//! The registry of single-use continuation handles.
//!
//! A handle is an opaque reference to a host-side continuation.  The
//! bridge owns a registered handle until it is resolved exactly once by
//! a drain pass; the registry records which handles are still owed a
//! resolution.

use vstd::prelude::*;

verus! {

/// Lifecycle of one registered handle: owed a resolution, or already
/// resolved.
#[derive(Clone, Copy, PartialEq, Eq, Structural, Debug)]
pub enum HandleStatus {
    Active,
    Resolved,
}

/// The registry.  A handle is its index in the status sequence, so a
/// freshly registered handle never collides with an earlier one.
pub struct HandleRegistry {
    statuses: Vec<HandleStatus>,
}

impl View for HandleRegistry {
    type V = Seq<HandleStatus>;

    closed spec fn view(&self) -> Seq<HandleStatus> {
        self.statuses@
    }
}

impl HandleRegistry {
    pub fn new() -> (r: Self)
        ensures
            r@ == Seq::<HandleStatus>::empty(),
    {
        HandleRegistry { statuses: Vec::new() }
    }

    /// True when `h` names a registered handle that is still owed its
    /// resolution.
    pub open spec fn is_active(self, h: int) -> bool {
        0 <= h < self@.len() && self@[h] is Active
    }

    pub fn handle_count(&self) -> (n: usize)
        ensures
            n == self@.len(),
    {
        self.statuses.len()
    }

    /// Captures one continuation: returns a fresh handle that is active
    /// until resolved.
    pub fn register(&mut self) -> (h: usize)
        ensures
            h == old(self)@.len(),
            final(self)@ == old(self)@.push(HandleStatus::Active),
            final(self).is_active(h as int),
    {
        let h = self.statuses.len();
        self.statuses.push(HandleStatus::Active);
        h
    }

    /// Whether `h` is a registered handle still owed its resolution.
    pub fn is_active_handle(&self, h: usize) -> (b: bool)
        ensures
            b == self.is_active(h as int),
    {
        if h < self.statuses.len() {
            matches!(self.statuses[h], HandleStatus::Active)
        } else {
            false
        }
    }

    /// Records that the continuation behind `h` has been invoked; the
    /// handle can never be resolved again.
    pub fn mark_resolved(&mut self, h: usize)
        requires
            old(self).is_active(h as int),
        ensures
            final(self)@ == old(self)@.update(h as int, HandleStatus::Resolved),
    {
        self.statuses[h] = HandleStatus::Resolved;
    }
}

} // verus!
