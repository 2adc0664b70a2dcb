//! The emitter: a registry of shared listeners and its dispatch.

use crate::laws::lemma_registered_is_valid;
use crate::laws::lemma_removed_is_valid;
use crate::model::other_than;
use crate::model::EmitterState;
use crate::sequences::lemma_filter_push;
use std::sync::Arc;
use vstd::prelude::*;

verus! {

/// Calls `Arc::clone`. The contract claims what std documents of it: the
/// result is a second pointer to the allocation that `shared` points to, so
/// both hold the same value.
#[verifier::external_body]
fn share<L>(shared: &Arc<L>) -> (r: Arc<L>)
    ensures
        r == *shared,
{
    Arc::clone(shared)
}

/// A call of `call` on `listener` has returned.
pub open spec fn answered<L, R, F: Fn(&L) -> R>(call: F, listener: L) -> bool {
    exists|r: R| call.ensures((&listener,), r)
}

/// Owns the handle counter and the listeners, each behind a shared pointer
/// and under the handle it was registered with.
pub struct EventEmitter<L> {
    next: u64,
    entries: Vec<(u64, Arc<L>)>,
}

impl<L> View for EventEmitter<L> {
    type V = EmitterState<L>;

    closed spec fn view(&self) -> EmitterState<L> {
        EmitterState {
            next: self.next as int,
            entries: self.entries@.map_values(|e: (u64, Arc<L>)| (e.0, *e.1)),
        }
    }
}

impl<L> EventEmitter<L> {
    #[verifier::type_invariant]
    closed spec fn inv(&self) -> bool {
        self@.wf()
    }

    /// An emitter without listeners, whose first handle is 0.
    pub fn new() -> (emitter: Self)
        ensures
            emitter@ == EmitterState::<L>::empty(),
            emitter@.wf(),
    {
        let emitter = EventEmitter { next: 0, entries: Vec::new() };
        assert(emitter@.entries =~= Seq::empty());
        emitter
    }

    /// The handle that the next registration returns.
    pub fn next_handle(&self) -> (next: u64)
        ensures
            next == self@.next,
            self@.wf(),
    {
        proof {
            use_type_invariant(self);
        }
        self.next
    }

    /// The number of registered listeners.
    pub fn len(&self) -> (n: usize)
        ensures
            n == self@.entries.len(),
    {
        self.entries.len()
    }

    /// Whether no listener is registered.
    pub fn is_empty(&self) -> (empty: bool)
        ensures
            empty == (self@.entries.len() == 0),
    {
        self.entries.len() == 0
    }

    /// Registers `listener` behind the others and returns its handle.
    ///
    /// The handle is the counter's value, which then moves on by one; the
    /// counter must not have reached its last value.
    pub fn add_listener(&mut self, listener: L) -> (handle: u64)
        requires
            old(self)@.has_room(),
        ensures
            handle == old(self)@.next,
            final(self)@ == old(self)@.registered(listener),
            final(self)@.wf(),
    {
        proof {
            use_type_invariant(&*self);
        }
        let handle = self.next;
        let mut entries: Vec<(u64, Arc<L>)> = Vec::new();
        std::mem::swap(&mut self.entries, &mut entries);
        entries.push((handle, Arc::new(listener)));
        self.next = handle + 1;
        proof {
            let after = entries@.map_values(|e: (u64, Arc<L>)| (e.0, *e.1));
            assert(after =~= old(self)@.registered(listener).entries);
            lemma_registered_is_valid(old(self)@, listener);
        }
        std::mem::swap(&mut self.entries, &mut entries);
        handle
    }

    /// Removes all listeners and keeps the counter.
    pub fn clear(&mut self)
        ensures
            final(self)@ == old(self)@.cleared(),
            final(self)@.wf(),
    {
        proof {
            use_type_invariant(&*self);
        }
        self.entries = Vec::new();
        proof {
            assert(self@.entries =~= old(self)@.cleared().entries);
        }
    }

    /// Removes the listener registered under `handle`, if there is one, and
    /// keeps the others in their order.
    pub fn remove_listener(&mut self, handle: u64)
        ensures
            final(self)@ == old(self)@.removed(handle),
            final(self)@.wf(),
    {
        proof {
            use_type_invariant(&*self);
        }
        let ghost before = self@.entries;
        let ghost stays = other_than::<L>(handle);
        let mut kept: Vec<(u64, Arc<L>)> = Vec::new();
        let mut i: usize = 0;
        while i < self.entries.len()
            invariant
                i <= self.entries.len(),
                *self == *old(self),
                before == old(self)@.entries,
                stays == other_than::<L>(handle),
                kept@.map_values(|e: (u64, Arc<L>)| (e.0, *e.1)) == before.take(i as int).filter(
                    stays,
                ),
            decreases self.entries.len() - i,
        {
            let ghost view_of = |e: (u64, Arc<L>)| (e.0, *e.1);
            proof {
                assert(before.take(i + 1) =~= before.take(i as int).push(before[i as int]));
                lemma_filter_push(before.take(i as int), before[i as int], stays);
            }
            if self.entries[i].0 != handle {
                kept.push((self.entries[i].0, share(&self.entries[i].1)));
                proof {
                    assert(kept@.map_values(view_of) =~= before.take(i + 1).filter(stays));
                }
            }
            i += 1;
        }
        proof {
            assert(before.take(i as int) =~= before);
            lemma_removed_is_valid(old(self)@, handle);
        }
        self.entries = kept;
    }

    /// The registered listeners in dispatch order, each as a new pointer to
    /// the same listener.
    pub fn snapshot(&self) -> (snap: Vec<Arc<L>>)
        ensures
            snap@.map_values(|l: Arc<L>| *l) == self@.listeners(),
    {
        let mut snap: Vec<Arc<L>> = Vec::new();
        let mut i: usize = 0;
        while i < self.entries.len()
            invariant
                i <= self.entries.len(),
                snap@.len() == i,
                forall|j: int| 0 <= j < i ==> snap@[j] == self.entries@[j].1,
            decreases self.entries.len() - i,
        {
            snap.push(share(&self.entries[i].1));
            i += 1;
        }
        proof {
            assert(snap@.map_values(|l: Arc<L>| *l) =~= self@.listeners());
        }
        snap
    }

    /// Calls `call` on every registered listener, first registered first,
    /// and returns what each call gave, in that order.
    ///
    /// The listeners are those of a snapshot taken at entry. No result stops
    /// the calls that follow it.
    pub fn deliver<R, F: Fn(&L) -> R>(&self, call: F) -> (results: Vec<R>)
        requires
            forall|i: int|
                0 <= i < self@.listeners().len() ==> call.requires((&#[trigger] self@.listeners()[i],)),
        ensures
            results@.len() == self@.listeners().len(),
            forall|i: int|
                0 <= i < results@.len() ==> call.ensures(
                    (&self@.listeners()[i],),
                    #[trigger] results@[i],
                ),
    {
        let snap = self.snapshot();
        let ghost listeners = self@.listeners();
        let mut results: Vec<R> = Vec::new();
        let mut i: usize = 0;
        while i < snap.len()
            invariant
                i <= snap.len(),
                snap@.map_values(|l: Arc<L>| *l) == listeners,
                forall|j: int|
                    0 <= j < listeners.len() ==> call.requires((&#[trigger] listeners[j],)),
                results@.len() == i,
                forall|j: int|
                    0 <= j < i ==> call.ensures((&listeners[j],), #[trigger] results@[j]),
            decreases snap.len() - i,
        {
            assert(*snap@[i as int] == listeners[i as int]);
            let r = call(&*snap[i]);
            results.push(r);
            i += 1;
        }
        results
    }

    /// Calls `call` on every registered listener, first registered first,
    /// and drops what the calls give: each call is made and returns, whatever
    /// the calls before it gave.
    pub fn dispatch<R, F: Fn(&L) -> R>(&self, call: F)
        requires
            forall|i: int|
                0 <= i < self@.listeners().len() ==> call.requires((&#[trigger] self@.listeners()[i],)),
        ensures
            forall|i: int|
                0 <= i < self@.listeners().len() ==> answered(call, #[trigger] self@.listeners()[i]),
    {
        let results = self.deliver(call);
        proof {
            assert forall|i: int| 0 <= i < self@.listeners().len() implies answered(
                call,
                #[trigger] self@.listeners()[i],
            ) by {
                assert(call.ensures((&self@.listeners()[i],), results@[i]));
            }
        }
    }
}

} // verus!
