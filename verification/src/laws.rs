//! What holds of every emitter, proved over its mathematical state.

use crate::model::other_than;
use crate::model::registrations;
use crate::model::EmitterState;
use crate::model::Operation;
use crate::sequences::lemma_filter_all_pass;
use crate::sequences::lemma_filter_is_subsequence;
use crate::sequences::picks;
use vstd::prelude::*;

verus! {

/// Registration keeps a valid state valid, while the counter has room.
pub proof fn lemma_registered_is_valid<L>(state: EmitterState<L>, listener: L)
    requires
        state.wf(),
        state.has_room(),
    ensures
        state.registered(listener).wf(),
{
}

/// Removal keeps a valid state valid.
pub proof fn lemma_removed_is_valid<L>(state: EmitterState<L>, handle: u64)
    requires
        state.wf(),
    ensures
        state.removed(handle).wf(),
{
    let kept = state.removed(handle).entries;
    lemma_filter_is_subsequence(state.entries, other_than::<L>(handle));
    let at = choose|at: Seq<int>| #[trigger] picks(state.entries, kept, at);
    assert forall|k: int| 0 <= k < kept.len() implies (#[trigger] kept[k]).0 < state.next by {
        assert(kept[k] == state.entries[at[k]]);
    }
    assert forall|k: int, m: int| 0 <= k < m < kept.len() implies (#[trigger] kept[k]).0 < (
    #[trigger] kept[m]).0 by {
        assert(kept[k] == state.entries[at[k]]);
        assert(kept[m] == state.entries[at[m]]);
        assert(at[k] < at[m]);
    }
}

/// After a removal no listener is registered under the removed handle, and
/// every other handle is registered exactly if it was before.
pub proof fn lemma_remove_takes_one<L>(state: EmitterState<L>, handle: u64)
    ensures
        !state.removed(handle).holds(handle),
        forall|other: u64|
            other != handle ==> (#[trigger] state.removed(handle).holds(other) <==> state.holds(
                other,
            )),
{
    let keep = other_than::<L>(handle);
    let kept = state.removed(handle).entries;
    broadcast use vstd::seq_lib::group_filter_ensures;

    lemma_filter_is_subsequence(state.entries, keep);
    let at = choose|at: Seq<int>| #[trigger] picks(state.entries, kept, at);
    assert forall|k: int| 0 <= k < kept.len() implies (#[trigger] kept[k]).0 != handle by {
        assert(keep(kept[k]));
    }
    assert forall|other: u64| other != handle implies (#[trigger] state.removed(handle).holds(
        other,
    ) <==> state.holds(other)) by {
        if state.removed(handle).holds(other) {
            let k = choose|k: int| 0 <= k < kept.len() && (#[trigger] kept[k]).0 == other;
            assert(state.entries[at[k]].0 == other);
        }
        if state.holds(other) {
            let i = choose|i: int|
                0 <= i < state.entries.len() && (#[trigger] state.entries[i]).0 == other;
            assert(keep(state.entries[i]));
            assert(kept.contains(state.entries[i]));
            let k = choose|k: int| 0 <= k < kept.len() && kept[k] == state.entries[i];
            assert(kept[k].0 == other);
        }
    }
}

/// Removing a handle under which nothing is registered changes nothing.
pub proof fn lemma_remove_missing<L>(state: EmitterState<L>, handle: u64)
    requires
        !state.holds(handle),
    ensures
        state.removed(handle) == state,
{
    lemma_filter_all_pass(state.entries, other_than::<L>(handle));
}

/// Removing the same handle a second time changes nothing.
pub proof fn lemma_remove_twice<L>(state: EmitterState<L>, handle: u64)
    ensures
        state.removed(handle).removed(handle) == state.removed(handle),
{
    lemma_remove_takes_one(state, handle);
    lemma_remove_missing(state.removed(handle), handle);
}

/// A removal keeps the listeners that stay in the order in which they stood.
pub proof fn lemma_remove_keeps_order<L>(state: EmitterState<L>, handle: u64)
    ensures
        exists|at: Seq<int>| #[trigger] picks(state.entries, state.removed(handle).entries, at),
{
    let keep = other_than::<L>(handle);
    lemma_filter_is_subsequence(state.entries, keep);
    let at = choose|at: Seq<int>| #[trigger] picks(state.entries, state.entries.filter(keep), at);
    assert(picks(state.entries, state.removed(handle).entries, at));
}

/// Listeners registered one after another stand behind those registered
/// before them, in the order of their registration: that is the order in
/// which a dispatch calls them.
pub proof fn lemma_registration_order<L>(state: EmitterState<L>, added: Seq<L>)
    ensures
        state.run(added.map_values(|l: L| Operation::Add(l))).listeners() == state.listeners()
            + added,
    decreases added.len(),
{
    let ops = added.map_values(|l: L| Operation::Add(l));
    if added.len() == 0 {
        assert(state.listeners() + added =~= state.listeners());
    } else {
        lemma_registration_order(state, added.drop_last());
        assert(ops.drop_last() =~= added.drop_last().map_values(|l: L| Operation::Add(l)));
        assert(ops.last() == Operation::Add(added.last()));
        assert(state.run(ops).listeners() =~= state.run(ops.drop_last()).listeners().push(
            added.last(),
        ));
        assert(state.listeners() + added =~= (state.listeners() + added.drop_last()).push(
            added.last(),
        ));
    }
}

/// After a clear no listener is registered, so a dispatch calls none.
pub proof fn lemma_clear_takes_all<L>(state: EmitterState<L>)
    ensures
        state.cleared().listeners().len() == 0,
        forall|handle: u64| !state.cleared().holds(handle),
{
}

/// Over any run of registrations, removals and clears for which the counter
/// has room, the state stays valid and the registrations return the
/// counter's successive values: each handle is larger than the one before,
/// so none is returned twice, and none was registered at the start.
pub proof fn lemma_handles_increase<L>(state: EmitterState<L>, ops: Seq<Operation<L>>)
    requires
        state.wf(),
        state.next + registrations(ops) <= u64::MAX,
    ensures
        state.run(ops).wf(),
        state.run(ops).next == state.next + registrations(ops),
        state.issued(ops).len() == registrations(ops),
        forall|k: int|
            0 <= k < state.issued(ops).len() ==> #[trigger] state.issued(ops)[k] == state.next + k,
        forall|i: int, j: int|
            0 <= i < j < state.issued(ops).len() ==> #[trigger] state.issued(ops)[i] < #[trigger] state.issued(
                ops,
            )[j],
        forall|k: int|
            0 <= k < state.issued(ops).len() ==> !state.holds(#[trigger] state.issued(ops)[k]),
    decreases ops.len(),
{
    if ops.len() > 0 {
        let before = state.run(ops.drop_last());
        lemma_handles_increase(state, ops.drop_last());
        match ops.last() {
            Operation::Add(listener) => {
                lemma_registered_is_valid(before, listener);
            },
            Operation::Remove(handle) => {
                lemma_removed_is_valid(before, handle);
            },
            Operation::Clear => {},
        }
    }
}

/// A handle that was handed out and is no longer registered never comes
/// back: whatever is registered, removed or cleared afterwards, no listener
/// is registered under it, so no dispatch reaches one through it.
pub proof fn lemma_gone_stays_gone<L>(state: EmitterState<L>, handle: u64, ops: Seq<Operation<L>>)
    requires
        state.wf(),
        handle < state.next,
        !state.holds(handle),
        state.next + registrations(ops) <= u64::MAX,
    ensures
        !state.run(ops).holds(handle),
    decreases ops.len(),
{
    if ops.len() > 0 {
        let before = state.run(ops.drop_last());
        lemma_gone_stays_gone(state, handle, ops.drop_last());
        lemma_handles_increase(state, ops.drop_last());
        match ops.last() {
            Operation::Add(listener) => {},
            Operation::Remove(other) => {
                lemma_remove_takes_one(before, other);
            },
            Operation::Clear => {},
        }
    }
}

/// After `handle` is removed, no run of later operations brings a listener
/// back under it.
pub proof fn lemma_removed_stays_out<L>(
    state: EmitterState<L>,
    handle: u64,
    ops: Seq<Operation<L>>,
)
    requires
        state.wf(),
        handle < state.next,
        state.next + registrations(ops) <= u64::MAX,
    ensures
        !state.removed(handle).run(ops).holds(handle),
{
    lemma_remove_takes_one(state, handle);
    lemma_removed_is_valid(state, handle);
    lemma_gone_stays_gone(state.removed(handle), handle, ops);
}

} // verus!
