//! The application state, the actions that advance it, and the pure reducer.

use vstd::prelude::*;

verus! {

/// A command value describing an intended state transition.
#[derive(Clone, Copy, PartialEq, Eq, Debug, Structural)]
pub enum Action {
    /// Append one entry to the state's committed history.
    Commit(u64),
    /// Request a transition that leaves the state unchanged.
    Noop,
}

/// An [`Action`] tagged with a process-unique identifier.
///
/// The identifier exists for identity, deduplication and tracking only; the
/// reducer never reads it, so it cannot influence the computed state.
#[derive(Clone, Copy, PartialEq, Eq, Debug, Structural)]
pub struct ActionWrapper {
    pub action: Action,
    pub id: u64,
}

impl ActionWrapper {
    /// Pairs an action with the identifier the surrounding system allotted to
    /// this submission.
    pub fn new(action: Action, id: u64) -> (r: ActionWrapper)
        ensures
            r.action == action,
            r.id == id,
    {
        ActionWrapper { action, id }
    }
}

/// The complete application state at a point in time: the history of
/// committed entries, in the order the reducer accepted them.
///
/// A `State` is only ever produced by [`State::new`] or by reduction; it is
/// never mutated in place. Two states are equal exactly when their histories
/// are equal.
#[derive(Debug, PartialEq, Eq)]
pub struct State {
    committed: Vec<u64>,
}

impl View for State {
    type V = Seq<u64>;

    closed spec fn view(&self) -> Seq<u64> {
        self.committed@
    }
}

/// The pure mathematical reducer: what one transition under `a` makes of the
/// state `s`.
pub open spec fn reduce_spec(s: Seq<u64>, a: Action) -> Seq<u64> {
    match a {
        Action::Commit(entry) => s.push(entry),
        Action::Noop => s,
    }
}

/// What reducing under a whole wrapper yields: the wrapped action alone
/// decides; the identifier does not enter.
pub open spec fn reduce_wrapper_spec(s: Seq<u64>, w: ActionWrapper) -> Seq<u64> {
    reduce_spec(s, w.action)
}

impl Clone for State {
    fn clone(&self) -> (r: Self)
        ensures
            r@ == self@,
    {
        let copy = self.committed.clone();
        proof {
            assert(copy@ =~= self.committed@);
        }
        State { committed: copy }
    }
}

impl State {
    /// The initial state: no entry has been committed yet.
    pub fn new() -> (r: State)
        ensures
            r@ == Seq::<u64>::empty(),
    {
        State { committed: Vec::new() }
    }

    /// The committed history, oldest entry first.
    pub fn committed(&self) -> (r: &Vec<u64>)
        ensures
            r@ == self@,
    {
        &self.committed
    }

    /// Computes the successor state for one submitted action. Pure: no side
    /// effect, no I/O, and the wrapper's identifier plays no part.
    pub fn reduce(&self, wrapper: &ActionWrapper) -> (r: State)
        ensures
            r@ == reduce_wrapper_spec(self@, *wrapper),
    {
        match wrapper.action {
            Action::Commit(entry) => {
                let mut next = self.committed.clone();
                proof {
                    assert(next@ =~= self.committed@);
                }
                next.push(entry);
                State { committed: next }
            }
            Action::Noop => self.clone(),
        }
    }
}

/// Identity independence: two wrappers that carry the same action but
/// different unique identifiers reduce any given state to the same successor.
pub proof fn lemma_identity_independence(s: Seq<u64>, w1: ActionWrapper, w2: ActionWrapper)
    requires
        w1.action == w2.action,
        w1.id != w2.id,
    ensures
        reduce_wrapper_spec(s, w1) == reduce_wrapper_spec(s, w2),
{
}

} // verus!
