//! Runtime modules for parachains code: the initializer, which keeps the other modules
//! in a consistent order through each block, and what it needs of them.

use vstd::prelude::*;
use crate::primitives::Id;
use crate::subsystem::{cleanup_order, cleanup_table, Subsystem, PARA_SUBSYSTEMS};

pub mod initializer;
pub mod mock;
pub mod primitives;
pub mod subsystem;
pub mod weights;

verus! {

/// A runtime, as the contracts of this crate see it: something with a state, on which
/// every call into it acts.
pub trait Runtime: Sized {
    /// What the state of the runtime is made of.
    type State;

    /// The state of this runtime. Left open by default; a runtime that is verified
    /// defines it.
    open spec fn state(&self) -> Self::State {
        arbitrary()
    }
}

/// What the registry and the message queues offer for bringing up a para and for
/// clearing it out. Each call is a function of the runtime's state; by default the spec
/// functions leave their value open.
pub trait ParaLifecycle: Runtime {
    /// The data that a para starts from.
    type ParaGenesisArgs;

    /// The state after the registry was asked to bring up the para `id`.
    open spec fn initialize_scheduled(state: Self::State, id: Id, genesis: Self::ParaGenesisArgs) -> Self::State {
        arbitrary()
    }

    /// The state after `which` was asked to clear out the para `id`.
    open spec fn cleanup_scheduled(state: Self::State, which: Subsystem, id: Id) -> Self::State {
        arbitrary()
    }

    /// Asks the registry to bring up the para `id` at the start of the next session.
    fn schedule_para_initialize(&mut self, id: Id, genesis: Self::ParaGenesisArgs)
        ensures
            final(self).state() == Self::initialize_scheduled(old(self).state(), id, genesis),
    ;

    /// Asks `which` to clear out the para `id` at the start of the next session. Asked are
    /// only the registry and the three message queues.
    fn schedule_para_cleanup(&mut self, which: Subsystem, id: Id)
        requires
            cleanup_order().contains(which),
        ensures
            final(self).state() == Self::cleanup_scheduled(old(self).state(), which, id),
    ;
}

/// The state after the subsystems in `order` were asked to clear out the para `id`, one
/// after the other.
pub open spec fn cleanup_scheduled_all<T: ParaLifecycle>(state: T::State, order: Seq<Subsystem>, id: Id) -> T::State
    decreases order.len(),
{
    if order.len() == 0 {
        state
    } else {
        T::cleanup_scheduled(cleanup_scheduled_all::<T>(state, order.drop_last(), id), order.last(), id)
    }
}

/// Schedule a para to be initialized at the start of the next session with the given
/// genesis data.
pub fn schedule_para_initialize<T: ParaLifecycle>(runtime: &mut T, id: Id, genesis: T::ParaGenesisArgs)
    ensures
        final(runtime).state() == T::initialize_scheduled(old(runtime).state(), id, genesis),
{
    runtime.schedule_para_initialize(id, genesis);
}

/// Schedule a para to be cleaned up at the start of the next session: by the registry,
/// then by the downward, the upward and the horizontal message queue.
pub fn schedule_para_cleanup<T: ParaLifecycle>(runtime: &mut T, id: Id)
    ensures
        final(runtime).state() == cleanup_scheduled_all::<T>(old(runtime).state(), cleanup_order(), id),
{
    let table = cleanup_table();
    let mut i: usize = 0;
    while i < PARA_SUBSYSTEMS
        invariant
            0 <= i <= PARA_SUBSYSTEMS,
            table@ == cleanup_order(),
            runtime.state() == cleanup_scheduled_all::<T>(old(runtime).state(), cleanup_order().take(i as int), id),
        decreases PARA_SUBSYSTEMS - i,
    {
        proof {
            assert(cleanup_order().take(i + 1).drop_last() =~= cleanup_order().take(i as int));
            assert(cleanup_order()[i as int] == table@[i as int]);
        }
        runtime.schedule_para_cleanup(table[i], id);
        i = i + 1;
    }
    proof {
        assert(cleanup_order().take(PARA_SUBSYSTEMS as int) =~= cleanup_order());
    }
}

} // verus!
