use flightctl::sched::{SpawnError, TaskSlot};

#[test]
fn spawn_queues_one_activation() {
    let mut slot = TaskSlot::new();
    assert_eq!(slot.pending, None);
    assert!(slot.spawn_at(40).is_ok());
    assert_eq!(slot.pending, Some(40));
}

#[test]
fn second_spawn_is_rejected_not_queued() {
    let mut slot = TaskSlot::new();
    assert!(slot.spawn_at(40).is_ok());
    assert_eq!(slot.spawn_at(44), Err(SpawnError::AlreadyPending));
    // The first activation is untouched.
    assert_eq!(slot.pending, Some(40));
}

#[test]
fn dispatch_waits_for_the_deadline() {
    let mut slot = TaskSlot::new();
    slot.spawn_at(100).unwrap();
    assert_eq!(slot.take_due(99), None);
    assert_eq!(slot.pending, Some(100));
    assert_eq!(slot.take_due(100), Some(100));
    assert_eq!(slot.pending, None);
    // After dispatch the slot accepts the loop's reschedule again.
    assert!(slot.spawn_at(104).is_ok());
}
