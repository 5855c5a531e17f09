//! The reduce-then-persist lifecycle around the port.

use vstd::prelude::*;

use crate::error::PersistenceError;
use crate::port::{load_model, save_model, Persist};
use crate::state::{reduce_wrapper_spec, ActionWrapper, State};

verus! {

/// The reduction pipeline: the one owner of the current state and of the
/// injected store.
///
/// It runs the cycle idle — reducing — persisting — idle: a submitted action
/// is reduced against the current state, the reducer's whole output is handed
/// to the store's save, and only then does the new state become current for
/// the next submission. The pipeline is logically single-threaded per state
/// lineage: it consumes the current state by value, so at most one reduction
/// and its save are ever in flight, and saves reach the store in submission
/// order.
pub struct Pipeline<P> {
    store: P,
    current: State,
}

impl<P: Persist> Pipeline<P> {
    /// The state the pipeline currently owns, by view.
    pub closed spec fn current_view(&self) -> Seq<u64> {
        self.current@
    }

    /// The snapshot the injected store holds.
    pub closed spec fn stored(&self) -> Option<Seq<u64>> {
        self.store.snapshot()
    }

    /// Takes ownership of a store, chosen by the caller, and of the state
    /// the process starts from.
    pub fn new(store: P, initial: State) -> (r: Pipeline<P>)
        ensures
            r.current_view() == initial@,
            r.stored() == store.snapshot(),
    {
        Pipeline { store, current: initial }
    }

    /// Read access to the current state.
    pub fn current(&self) -> (r: &State)
        ensures
            r@ == self.current_view(),
    {
        &self.current
    }

    /// Read access to the injected store, for loading.
    pub fn store(&self) -> (r: &P)
        ensures
            r.snapshot() == self.stored(),
    {
        &self.store
    }

    /// One full submit — reduce — persist cycle, synchronous with respect to
    /// the caller: on return the reducer's output is the current state and
    /// the store holds it whole. A reduction that leaves the state value-equal
    /// to the old one is not special-cased: the save still happens, so every
    /// reduction is matched by exactly one save.
    pub fn submit(&mut self, wrapper: &ActionWrapper)
        ensures
            final(self).current_view() == reduce_wrapper_spec(
                old(self).current_view(),
                *wrapper,
            ),
            final(self).stored() == save_model(old(self).stored(), final(self).current_view()),
    {
        let next = self.current.reduce(wrapper);
        self.store.save(&next);
        self.current = next;
    }
}

/// Reduction-persist coupling law: starting from any snapshot and any state
/// `s0`, persisting what the reducer makes of `s0` under the wrapper `a` and
/// then loading yields exactly the reducer's output — the same state that
/// invoking the reducer on `(s0, a)` directly computes.
pub proof fn lemma_reduce_persist_coupling(snap: Option<Seq<u64>>, s0: Seq<u64>, a: ActionWrapper)
    ensures
        load_model(save_model(snap, reduce_wrapper_spec(s0, a))) == Ok::<
            Option<Seq<u64>>,
            PersistenceError,
        >(Some(reduce_wrapper_spec(s0, a))),
{
}

} // verus!
