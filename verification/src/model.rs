//! The mathematical state of an emitter: a counter and an ordered list of
//! registered listeners, each under the handle it was given.

use vstd::prelude::*;

verus! {

/// What an emitter is, seen from outside: the handle that the next
/// registration will get, and the registered listeners in dispatch order.
pub struct EmitterState<L> {
    pub next: int,
    pub entries: Seq<(u64, L)>,
}

/// One change to an emitter.
pub enum Operation<L> {
    Add(L),
    Remove(u64),
    Clear,
}

impl<L> EmitterState<L> {
    /// The state of a new emitter.
    pub open spec fn empty() -> Self {
        EmitterState { next: 0, entries: Seq::empty() }
    }

    /// Every held handle was handed out before, and handles grow along the
    /// list; so no handle occurs twice and the list is in registration order.
    pub open spec fn wf(self) -> bool {
        &&& 0 <= self.next <= u64::MAX
        &&& forall|i: int| 0 <= i < self.entries.len() ==> (#[trigger] self.entries[i]).0 < self.next
        &&& forall|i: int, j: int|
            0 <= i < j < self.entries.len() ==> (#[trigger] self.entries[i]).0 < (
            #[trigger] self.entries[j]).0
    }

    /// The handles of the registered listeners, in dispatch order.
    pub open spec fn handles(self) -> Seq<u64> {
        self.entries.map_values(|e: (u64, L)| e.0)
    }

    /// The registered listeners, in dispatch order.
    pub open spec fn listeners(self) -> Seq<L> {
        self.entries.map_values(|e: (u64, L)| e.1)
    }

    /// Whether a listener is registered under `handle`.
    pub open spec fn holds(self, handle: u64) -> bool {
        exists|i: int| 0 <= i < self.entries.len() && (#[trigger] self.entries[i]).0 == handle
    }

    /// Whether one more listener can be registered.
    pub open spec fn has_room(self) -> bool {
        self.next < u64::MAX
    }

    /// The state after `listener` is registered: it goes to the end of the
    /// list under the handle `next`, and the counter moves on by one.
    pub open spec fn registered(self, listener: L) -> Self {
        EmitterState {
            next: self.next + 1,
            entries: self.entries.push((self.next as u64, listener)),
        }
    }

    /// The state after the listener under `handle` is removed: the others
    /// keep their order, and the counter stays.
    pub open spec fn removed(self, handle: u64) -> Self {
        EmitterState {
            next: self.next,
            entries: self.entries.filter(other_than(handle)),
        }
    }

    /// The state after all listeners are removed: the counter stays.
    pub open spec fn cleared(self) -> Self {
        EmitterState { next: self.next, entries: Seq::empty() }
    }

    /// The state after one operation.
    pub open spec fn step(self, op: Operation<L>) -> Self {
        match op {
            Operation::Add(listener) => self.registered(listener),
            Operation::Remove(handle) => self.removed(handle),
            Operation::Clear => self.cleared(),
        }
    }

    /// The state after the operations `ops`, first to last.
    pub open spec fn run(self, ops: Seq<Operation<L>>) -> Self
        decreases ops.len(),
    {
        if ops.len() == 0 {
            self
        } else {
            self.run(ops.drop_last()).step(ops.last())
        }
    }

    /// The handles that the registrations among `ops` return, first to last.
    pub open spec fn issued(self, ops: Seq<Operation<L>>) -> Seq<u64>
        decreases ops.len(),
    {
        if ops.len() == 0 {
            Seq::empty()
        } else {
            let before = self.issued(ops.drop_last());
            match ops.last() {
                Operation::Add(_) => before.push(self.run(ops.drop_last()).next as u64),
                _ => before,
            }
        }
    }
}

/// The test that an entry passes when it is not registered under `handle`.
pub open spec fn other_than<L>(handle: u64) -> spec_fn((u64, L)) -> bool {
    |e: (u64, L)| e.0 != handle
}

/// How many of `ops` register a listener.
pub open spec fn registrations<L>(ops: Seq<Operation<L>>) -> nat
    decreases ops.len(),
{
    if ops.len() == 0 {
        0
    } else {
        let before = registrations(ops.drop_last());
        match ops.last() {
            Operation::Add(_) => before + 1,
            _ => before,
        }
    }
}

} // verus!
