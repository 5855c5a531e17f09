use persist::error::PersistenceError;
use persist::pipeline::Pipeline;
use persist::port::{Persist, SimplePersist};
use persist::state::{Action, ActionWrapper, State};

#[test]
fn can_instantiate() {
    let store = SimplePersist::new();
    match store.load() {
        Err(_) => assert!(false),
        Ok(state) => match state {
            None => assert!(true),
            _ => assert!(false),
        },
    }
}

#[test]
fn can_roundtrip() {
    let mut store = SimplePersist::new();

    let state = State::new();

    let action = Action::Commit(42);
    let new_state = state.reduce(&ActionWrapper::new(action, 1));

    store.save(&new_state);

    assert_eq!(store.load().unwrap().unwrap(), new_state);
}

#[test]
fn default_store_is_empty() {
    let store = SimplePersist::default();
    assert_eq!(store.load().unwrap(), None);
}

#[test]
fn round_trip_of_longer_history() {
    let mut store = SimplePersist::new();
    let s = State::new()
        .reduce(&ActionWrapper::new(Action::Commit(1), 10))
        .reduce(&ActionWrapper::new(Action::Commit(2), 11))
        .reduce(&ActionWrapper::new(Action::Commit(3), 12));
    assert_eq!(s.committed(), &vec![1u64, 2, 3]);
    store.save(&s);
    assert_eq!(store.load().unwrap().unwrap(), s);
}

#[test]
fn overwrite_keeps_only_the_last_save() {
    let mut store = SimplePersist::new();
    let s1 = State::new().reduce(&ActionWrapper::new(Action::Commit(1), 20));
    let s2 = State::new().reduce(&ActionWrapper::new(Action::Commit(2), 21));

    store.save(&s1);
    store.save(&s2);

    let loaded = store.load().unwrap().unwrap();
    assert_eq!(loaded, s2);
    assert_ne!(loaded, s1);
}

#[test]
fn no_torn_write_after_completed_save() {
    let mut store = SimplePersist::new();
    let prior = State::new().reduce(&ActionWrapper::new(Action::Commit(8), 30));
    store.save(&prior);

    let new = prior.reduce(&ActionWrapper::new(Action::Commit(9), 31));
    store.save(&new);

    // the observed value is one of the two completed snapshots, never a mixture
    let loaded = store.load().unwrap().unwrap();
    assert!(loaded == prior || loaded == new);
    assert_eq!(loaded, new);
}

#[test]
fn reduce_commit_appends_an_entry() {
    let s0 = State::new();
    assert_eq!(s0.committed().len(), 0);
    let s1 = s0.reduce(&ActionWrapper::new(Action::Commit(5), 40));
    assert_eq!(s1.committed(), &vec![5u64]);
}

#[test]
fn reduce_noop_keeps_the_state() {
    let s0 = State::new().reduce(&ActionWrapper::new(Action::Commit(5), 50));
    let s1 = s0.reduce(&ActionWrapper::new(Action::Noop, 51));
    assert_eq!(s1, s0);
}

#[test]
fn full_cycle_persists_the_reducer_output() {
    let s0 = State::new();
    let wrapper = ActionWrapper::new(Action::Commit(77), 60);

    // the same reduction invoked directly, outside the pipeline
    let direct = s0.reduce(&wrapper);

    let mut pipe = Pipeline::new(SimplePersist::new(), State::new());
    pipe.submit(&wrapper);

    assert_eq!(pipe.current(), &direct);
    assert_eq!(pipe.store().load().unwrap().unwrap(), direct);
}

#[test]
fn noop_reduction_is_still_saved() {
    // the store starts behind the pipeline's current state on purpose
    let current = State::new().reduce(&ActionWrapper::new(Action::Commit(3), 70));
    let mut pipe = Pipeline::new(SimplePersist::new(), current.clone());
    assert_eq!(pipe.store().load().unwrap(), None);

    // the reduction leaves the state value-equal, yet the save happens
    pipe.submit(&ActionWrapper::new(Action::Noop, 71));
    assert_eq!(pipe.current(), &current);
    assert_eq!(pipe.store().load().unwrap().unwrap(), current);
}

#[test]
fn submissions_are_persisted_in_order() {
    let mut pipe = Pipeline::new(SimplePersist::new(), State::new());
    pipe.submit(&ActionWrapper::new(Action::Commit(1), 80));
    pipe.submit(&ActionWrapper::new(Action::Commit(2), 81));
    pipe.submit(&ActionWrapper::new(Action::Commit(3), 82));
    let loaded = pipe.store().load().unwrap().unwrap();
    assert_eq!(loaded.committed(), &vec![1u64, 2, 3]);
}

#[test]
fn identifiers_do_not_change_the_reduction() {
    let s0 = State::new().reduce(&ActionWrapper::new(Action::Commit(6), 90));
    let w1 = ActionWrapper::new(Action::Commit(11), 91);
    let w2 = ActionWrapper::new(Action::Commit(11), 92);
    assert_ne!(w1, w2);
    assert_eq!(s0.reduce(&w1), s0.reduce(&w2));
}

#[test]
fn wrapper_keeps_action_and_id() {
    let w = ActionWrapper::new(Action::Commit(13), 7);
    assert_eq!(w.action, Action::Commit(13));
    assert_eq!(w.id, 7);
}

#[test]
fn error_kinds_are_distinct() {
    assert_ne!(PersistenceError::LoadFailure, PersistenceError::SaveFailure);
}
