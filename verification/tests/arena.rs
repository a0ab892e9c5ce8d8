use ui_ratatui::explorer::arena::{Arena, ArenaError, ArenaSlotState, SlotStateKind};
use ui_ratatui::explorer::ids::SlotId;

fn runtime(text: &str) -> String {
    text.to_owned()
}

#[test]
fn two_arenas_do_not_share_same_numeric_slot_id() {
    let mut first = Arena::default();
    let mut second = Arena::default();

    let first_id = first.insert_ready(runtime("first")).unwrap();
    let second_id = second.insert_ready(runtime("second")).unwrap();

    assert_eq!(first_id, second_id);
    assert_ne!(
        first.ready_value(first_id).unwrap().as_str(),
        second.ready_value(second_id).unwrap().as_str()
    );
}

#[test]
fn ready_roots_follow_slot_id_and_non_ready_states_are_not_values() {
    let mut arena = Arena::default();
    let first = arena.insert_ready(runtime("MyThing { age: 42, name: Ada }")).unwrap();
    let building = arena.reserve_builder().unwrap();
    let last = arena.insert_ready(runtime("last")).unwrap();

    assert_eq!(arena.ready_slot_ids(), [first, last]);
    assert!(arena.ready_value(building).is_none());
}

#[test]
fn materialization_and_deletion_advance_only_the_addressed_root() {
    let mut arena = Arena::default();
    let building = arena.reserve_builder().unwrap();
    let stable = arena.insert_ready(runtime("stable")).unwrap();
    let building_before = arena.root_revision(building).unwrap();
    let stable_before = arena.root_revision(stable).unwrap();
    let arena_before = arena.arena_revision();

    arena.set_ready(building, runtime("ready")).unwrap();

    assert!(arena.arena_revision() > arena_before);
    assert!(arena.root_revision(building).unwrap() > building_before);
    assert_eq!(arena.root_revision(stable), Some(stable_before));
    assert_eq!(arena.ready_slot_ids(), [building, stable]);

    arena.delete(building).unwrap();
    assert_eq!(arena.ready_slot_ids(), [stable]);
    assert!(matches!(
        arena.slot(building).map(|slot| slot.state()),
        Some(ArenaSlotState::Tombstone { .. })
    ));
}

#[test]
fn ready_values_cannot_be_silently_replaced() {
    let mut arena = Arena::default();
    let ready = arena.insert_ready(runtime("original")).unwrap();

    let error = arena
        .set_ready(ready, runtime("replacement"))
        .expect_err("Ready replacement needs an explicit mutation API");

    assert!(matches!(
        error,
        ArenaError::InvalidTransition {
            slot,
            from: SlotStateKind::Ready,
            to: SlotStateKind::Ready,
        } if slot == ready
    ));
}

#[test]
fn pending_cancel_failure_success_and_ready_consumption_follow_the_lifecycle() {
    let mut arena = Arena::default();

    let success = arena.insert_pending().unwrap();
    arena.set_ready(success, runtime("completed")).unwrap();
    assert_eq!(arena.resolve_root(success).unwrap().as_str(), "completed");

    let failure = arena.insert_pending().unwrap();
    arena.set_failed(failure, "network failed".to_owned()).unwrap();
    assert!(matches!(
        arena.slot(failure).map(|slot| slot.state()),
        Some(ArenaSlotState::Failed(message)) if message == "network failed"
    ));

    let cancelled = arena.insert_pending().unwrap();
    arena.cancel_pending(cancelled).unwrap();
    assert!(matches!(
        arena.slot(cancelled).map(|slot| slot.state()),
        Some(ArenaSlotState::Cancelled)
    ));

    arena.delete(success).unwrap();
    arena.delete(failure).unwrap();
    arena.delete(cancelled).unwrap();

    let consumed = arena.insert_ready(runtime("moved into invocation")).unwrap();
    let value = arena.consume(consumed).unwrap();
    assert_eq!(value.as_str(), "moved into invocation");
    assert!(matches!(
        arena.slot(consumed).map(|slot| slot.state()),
        Some(ArenaSlotState::Consumed)
    ));
    assert!(matches!(
        arena.delete(consumed),
        Err(ArenaError::InvalidTransition {
            slot,
            from: SlotStateKind::Consumed,
            to: SlotStateKind::Tombstone,
        }) if slot == consumed
    ));
}

#[test]
fn root_resolution_and_illegal_transitions_return_typed_errors() {
    let mut arena = Arena::default();
    let building = arena.reserve_builder().unwrap();
    assert!(matches!(
        arena.resolve_root(building),
        Err(ArenaError::RootNotReady {
            slot,
            state: SlotStateKind::Building,
        }) if slot == building
    ));
    assert!(matches!(
        arena.delete(building),
        Err(ArenaError::InvalidTransition {
            slot,
            from: SlotStateKind::Building,
            to: SlotStateKind::Tombstone,
        }) if slot == building
    ));

    let unknown = SlotId::new(10_000);
    assert!(matches!(
        arena.resolve_root(unknown),
        Err(ArenaError::UnknownSlot(slot)) if slot == unknown
    ));

    arena.set_ready(building, runtime("ready")).unwrap();
    arena.delete(building).unwrap();
    assert!(matches!(
        arena.resolve_root(building),
        Err(ArenaError::Tombstone {
            slot,
            previous: SlotStateKind::Ready,
        }) if slot == building
    ));
    assert!(matches!(
        arena.set_ready(building, runtime("stale")),
        Err(ArenaError::InvalidTransition {
            slot,
            from: SlotStateKind::Tombstone,
            to: SlotStateKind::Ready,
        }) if slot == building
    ));
    assert!(matches!(
        arena.delete(building),
        Err(ArenaError::InvalidTransition {
            slot,
            from: SlotStateKind::Tombstone,
            to: SlotStateKind::Tombstone,
        }) if slot == building
    ));

    let pending = arena.insert_pending().unwrap();
    assert!(matches!(
        arena.delete(pending),
        Err(ArenaError::InvalidTransition {
            slot,
            from: SlotStateKind::Pending,
            to: SlotStateKind::Tombstone,
        }) if slot == pending
    ));

    let next = arena.insert_ready(runtime("new")).unwrap();
    assert!(next > building, "tombstoned SlotIds must never be reused");
}

#[test]
fn state_labels_name_each_lifecycle_stage() {
    assert_eq!(SlotStateKind::Building.label(), "Building");
    assert_eq!(SlotStateKind::Tombstone.label(), "Tombstone");
    let mut arena = Arena::default();
    let slot = arena.insert_ready(runtime("x")).unwrap();
    assert_eq!(arena.slot(slot).unwrap().state().label(), "Ready");
    assert_eq!(arena.allocated_slot_count(), 1);
}

#[test]
fn replacing_and_abandoning_follow_their_own_rules() {
    let mut arena = Arena::default();
    let ready = arena.insert_ready(runtime("old")).unwrap();
    assert_eq!(arena.replace_ready(ready, runtime("new")).unwrap(), "old");
    assert_eq!(arena.ready_value(ready).unwrap(), "new");

    let builder = arena.reserve_builder().unwrap();
    arena.abandon_builder(builder).unwrap();
    assert!(matches!(
        arena.slot(builder).map(|slot| slot.state()),
        Some(ArenaSlotState::Tombstone {
            previous: SlotStateKind::Building
        })
    ));
    assert!(matches!(
        arena.cancel_pending(ready),
        Err(ArenaError::InvalidTransition {
            from: SlotStateKind::Ready,
            to: SlotStateKind::Cancelled,
            ..
        })
    ));
}
