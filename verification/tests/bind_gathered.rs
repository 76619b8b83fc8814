use freddie::bind::gathered;
use freddie::trigger::BindError;
use std::collections::HashSet;

#[test]
fn a_finished_walk_hands_back_its_set() {
    let set: HashSet<u32> = [1, 2, 3].into_iter().collect();
    let walk: Result<(), BindError> = Ok(());
    assert_eq!(gathered(walk, set.clone()), Ok(set));
}

#[test]
fn a_refused_walk_passes_its_error_through() {
    let set: HashSet<u32> = [4].into_iter().collect();
    let walk: Result<(), BindError> = Err(BindError::MultiChildNode);
    assert_eq!(gathered(walk, set.clone()), Err(BindError::MultiChildNode));
    let walk: Result<(), BindError> = Err(BindError::DuplicateTrigger);
    assert_eq!(gathered(walk, set), Err(BindError::DuplicateTrigger));
}
