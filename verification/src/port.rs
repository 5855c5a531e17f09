//! The persistence port and its in-memory reference store.

use vstd::prelude::*;

use crate::error::PersistenceError;
use crate::state::State;

verus! {

/// The snapshot a store holds after a save: the saved state replaces
/// whatever was held before, whole — never a mixture of old and new.
pub open spec fn save_model(snap: Option<Seq<u64>>, s: Seq<u64>) -> Option<Seq<u64>> {
    Some(s)
}

/// What a fault-free load reports of a snapshot: the held state, or the
/// empty outcome when no save has happened yet.
pub open spec fn load_model(snap: Option<Seq<u64>>) -> Result<
    Option<Seq<u64>>,
    PersistenceError,
> {
    Ok(snap)
}

/// A load result read through the view of the state it carries, so that
/// contracts can compare it with the mathematical snapshot.
pub open spec fn loaded_view(r: Result<Option<State>, PersistenceError>) -> Result<
    Option<Seq<u64>>,
    PersistenceError,
> {
    match r {
        Ok(Some(s)) => Ok(Some(s@)),
        Ok(None) => Ok(None),
        Err(e) => Err(e),
    }
}

/// The persistence port: the abstract save/load capability that decouples
/// the reduction pipeline from any concrete storage medium. Backends are
/// chosen at construction time by handing an implementation to whoever runs
/// the pipeline.
pub trait Persist {
    /// The snapshot this store currently holds, as the view of the stored
    /// state; `None` before the first save (or after a reset).
    spec fn snapshot(&self) -> Option<Seq<u64>>;

    /// Replaces the held snapshot with a copy of `state`. After the call the
    /// store holds exactly the new value: a later load can observe the old
    /// snapshot or the new one, never a torn mixture.
    fn save(&mut self, state: &State)
        ensures
            final(self).snapshot() == save_model(old(self).snapshot(), state@),
    ;

    /// Returns the most recently saved snapshot; the empty outcome `Ok(None)`
    /// when no save has happened; or an error, which is a distinct condition
    /// that an implementation must never conflate with emptiness. Whether a
    /// backend can fail at all is its own affair, so success is not owed
    /// here; whatever comes back, a successful load reports the snapshot.
    fn load(&self) -> (r: Result<Option<State>, PersistenceError>)
        ensures
            r is Ok ==> loaded_view(r) == load_model(self.snapshot()),
    ;
}

/// The reference store: holds at most one snapshot in process memory, with
/// no backing I/O. It is the zero case of the port, for ephemeral runs and
/// tests, and neither of its operations can fail.
#[derive(Clone, PartialEq)]
pub struct SimplePersist {
    state: Option<State>,
}

impl SimplePersist {
    /// A fresh store, holding no snapshot.
    pub fn new() -> (r: SimplePersist)
        ensures
            r.snapshot() is None,
    {
        SimplePersist { state: None }
    }
}

impl Default for SimplePersist {
    /// The same fresh, empty store that [`SimplePersist::new`] builds.
    fn default() -> (r: SimplePersist)
        ensures
            r.snapshot() is None,
    {
        SimplePersist { state: None }
    }
}

impl Persist for SimplePersist {
    closed spec fn snapshot(&self) -> Option<Seq<u64>> {
        match self.state {
            Some(s) => Some(s@),
            None => None,
        }
    }

    /// Pure assignment of a copy of the argument; cannot fail.
    fn save(&mut self, state: &State) {
        self.state = Some(state.clone());
    }

    /// Returns a copy of the held value; in this implementation a load can
    /// never fail, so on top of the port's contract it promises success.
    fn load(&self) -> (r: Result<Option<State>, PersistenceError>)
        ensures
            r is Ok,
            loaded_view(r) == load_model(self.snapshot()),
    {
        match &self.state {
            Some(s) => Ok(Some(s.clone())),
            None => Ok(None),
        }
    }
}

/// Empty-start law: of a store that holds no snapshot, a fault-free load
/// reports the empty outcome — success carrying no state.
pub proof fn lemma_empty_start(snap: Option<Seq<u64>>)
    requires
        snap is None,
    ensures
        load_model(snap) == Ok::<Option<Seq<u64>>, PersistenceError>(None),
{
}

/// Round-trip law: for every state `s`, saving `s` and then loading yields
/// exactly `s`.
pub proof fn lemma_round_trip(snap: Option<Seq<u64>>, s: Seq<u64>)
    ensures
        load_model(save_model(snap, s)) == Ok::<Option<Seq<u64>>, PersistenceError>(Some(s)),
{
}

/// Overwrite law: saving `s1` and then `s2` makes a load yield `s2`; it can
/// yield `s1` only when the two states are equal.
pub proof fn lemma_overwrite(snap: Option<Seq<u64>>, s1: Seq<u64>, s2: Seq<u64>)
    ensures
        load_model(save_model(save_model(snap, s1), s2)) == Ok::<
            Option<Seq<u64>>,
            PersistenceError,
        >(Some(s2)),
        s1 != s2 ==> load_model(save_model(save_model(snap, s1), s2)) != Ok::<
            Option<Seq<u64>>,
            PersistenceError,
        >(Some(s1)),
{
}

/// No-torn-write law: a load issued after a completed save observes either
/// the prior snapshot or the new one, never a value that is neither.
pub proof fn lemma_no_torn_write(snap: Option<Seq<u64>>, s: Seq<u64>)
    ensures
        load_model(save_model(snap, s)) == Ok::<Option<Seq<u64>>, PersistenceError>(Some(s))
            || load_model(save_model(snap, s)) == load_model(snap),
{
}

} // verus!
