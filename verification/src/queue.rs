//! The mailbox of completed-operation results awaiting delivery.
//!
//! Background units push one entry per completed operation; the drain
//! pass atomically removes every queued entry.  The concurrency guard
//! around the queue lives outside the library; the logic here is the
//! queue's contents.

use vstd::prelude::*;
use crate::outcome::Outcome;

verus! {

/// One completed operation: the handle it was dispatched under and the
/// outcome owed to that handle's continuation.
pub struct QueuedResult {
    pub handle: usize,
    pub outcome: Outcome,
}

/// The mailbox itself, in completion order.
pub struct CallbackQueue {
    entries: Vec<QueuedResult>,
}

impl View for CallbackQueue {
    type V = Seq<QueuedResult>;

    closed spec fn view(&self) -> Seq<QueuedResult> {
        self.entries@
    }
}

/// True when some entry of `q` carries the handle `h`.
pub open spec fn queued_handle(q: Seq<QueuedResult>, h: int) -> bool {
    exists|k: int| 0 <= k < q.len() && q[k].handle == h
}

impl CallbackQueue {
    pub fn new() -> (r: Self)
        ensures
            r@ == Seq::<QueuedResult>::empty(),
    {
        CallbackQueue { entries: Vec::new() }
    }

    pub fn len(&self) -> (n: usize)
        ensures
            n == self@.len(),
    {
        self.entries.len()
    }

    /// Appends one completed result; no entry is ever dropped.
    pub fn push(&mut self, entry: QueuedResult)
        ensures
            final(self)@ == old(self)@.push(entry),
    {
        self.entries.push(entry);
    }

    /// Whether some queued entry already carries the handle `h`.
    pub fn holds_handle(&self, h: usize) -> (b: bool)
        ensures
            b == queued_handle(self@, h as int),
    {
        let n = self.entries.len();
        let mut i: usize = 0;
        let mut found = false;
        while i < n
            invariant
                i <= n,
                n == self.entries@.len(),
                found <==> exists|k: int| 0 <= k < i && self.entries@[k].handle == h as int,
            decreases n - i,
        {
            if self.entries[i].handle == h {
                found = true;
            }
            i += 1;
        }
        found
    }

    /// Atomically removes and returns every queued entry, in completion
    /// order, leaving the queue empty.
    pub fn drain_all(&mut self) -> (drained: Vec<QueuedResult>)
        ensures
            drained@ == old(self)@,
            final(self)@ == Seq::<QueuedResult>::empty(),
    {
        let mut drained: Vec<QueuedResult> = Vec::new();
        core::mem::swap(&mut self.entries, &mut drained);
        drained
    }
}

} // verus!
