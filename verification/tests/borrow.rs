use ui_ratatui::explorer::arena::{Arena, ArenaSlotState};
use ui_ratatui::explorer::borrow::{BorrowError, BorrowGraph, BorrowHolder};
use ui_ratatui::explorer::ids::SlotId;
use ui_ratatui::explorer::value_address::{ValueAddress, ValuePathSegment};

fn runtime(text: &str) -> String {
    text.to_owned()
}

fn resolves(arena: &Arena<String>, address: &ValueAddress) -> bool {
    arena.resolve_root(address.root_id()).is_ok()
}

#[test]
fn ordinary_cow_borrow_uses_an_edge_without_allocating_a_view_slot() {
    let mut arena = Arena::default();
    let source = arena.insert_ready(runtime("borrowed value")).unwrap();
    let request = arena.reserve_builder().unwrap();
    let allocated_before_borrow = arena.allocated_slot_count();
    let mut graph = BorrowGraph::default();

    let address = ValueAddress::root(source);
    let lease = graph
        .borrow(resolves(&arena, &address), address, request, "value".to_owned())
        .unwrap();

    assert_eq!(lease.source(), &ValueAddress::root(source));
    assert_eq!(lease.holder(), BorrowHolder::Builder(request));
    assert_eq!(lease.field(), "value");
    assert!(graph.protects_root(source));
    assert_eq!(graph.edge_count(), 1);
    assert_eq!(
        arena.allocated_slot_count(),
        allocated_before_borrow,
        "a borrow edge must not allocate a view slot"
    );
    assert!(matches!(
        arena.slot(source).map(|slot| slot.state()),
        Some(ArenaSlotState::Ready(_))
    ));

    graph.release(lease).unwrap();
    assert!(!graph.protects_root(source));
}

#[test]
fn nested_value_borrow_protects_the_complete_source_root() {
    let mut arena = Arena::default();
    let source_root = arena.insert_ready(runtime("TestTab { name: admins }")).unwrap();
    let borrower = arena.reserve_builder().unwrap();
    let name = ValueAddress::root(source_root).child(ValuePathSegment::Field("name".to_owned()));
    let mut graph = BorrowGraph::default();

    let lease = graph
        .borrow(resolves(&arena, &name), name, borrower, "name".to_owned())
        .unwrap();

    assert!(graph.protects_root(source_root));
    graph.release(lease).unwrap();
    assert!(!graph.protects_root(source_root));
}

#[test]
fn pending_invocation_receives_the_same_unique_lease() {
    let mut arena = Arena::default();
    let source = arena.insert_ready(runtime("borrow me")).unwrap();
    let borrower = arena.reserve_builder().unwrap();
    let pending = arena.insert_pending().unwrap();
    let mut graph = BorrowGraph::default();
    let address = ValueAddress::root(source);
    let mut lease = graph
        .borrow(resolves(&arena, &address), address, borrower, "value".to_owned())
        .unwrap();
    let lease_id = lease.id();

    graph.transfer_to_pending(&mut lease, pending).unwrap();

    assert_eq!(lease.id(), lease_id);
    assert_eq!(lease.holder(), BorrowHolder::PendingInvocation(pending));
    assert!(graph.protects_root(source));
    graph.release(lease).unwrap();
    assert!(!graph.protects_root(source));
}

#[test]
fn mutation_conflict_is_typed_and_holder_transfers_are_visible() {
    let mut arena = Arena::default();
    let source = arena.insert_ready(runtime("borrow me")).unwrap();
    let builder = arena.reserve_builder().unwrap();
    let ready = arena.insert_ready(runtime("borrower")).unwrap();
    let mut graph = BorrowGraph::default();
    let address = ValueAddress::root(source);
    let mut lease = graph
        .borrow(resolves(&arena, &address), address, builder, "value".to_owned())
        .unwrap();

    assert_eq!(
        graph.ensure_root_unprotected(source),
        Err(BorrowError::SourceProtected {
            root: source,
            leases: 1
        })
    );
    graph.transfer_to_ready(&mut lease, ready).unwrap();
    assert!(graph.contains(&lease));
    assert_eq!(graph.holder_edge_count(BorrowHolder::ReadyValue(ready)), 1);

    graph.release(lease).unwrap();
    assert_eq!(graph.ensure_root_unprotected(source), Ok(()));
}

#[test]
fn unresolvable_sources_are_refused_and_each_lease_protects_until_released() {
    let mut arena = Arena::<String>::default();
    let builder = arena.reserve_builder().unwrap();
    let missing = ValueAddress::root(SlotId::new(77));
    let mut graph = BorrowGraph::default();
    assert_eq!(
        graph
            .borrow(resolves(&arena, &missing), missing.clone(), builder, "value".to_owned())
            .err(),
        Some(BorrowError::SourceNotReady(missing))
    );
    assert_eq!(graph.edge_count(), 0);

    let source = arena.insert_ready(runtime("kept")).unwrap();
    let address = ValueAddress::root(source);
    let lease = graph
        .borrow(true, address, builder, "value".to_owned())
        .unwrap();
    let second = graph
        .duplicate_for_builder(true, &lease, builder, "other".to_owned())
        .unwrap();
    assert_eq!(graph.edge_count(), 2);
    assert_ne!(lease.id(), second.id());
    graph.release(lease).unwrap();
    assert!(graph.protects_root(source));
    graph.release(second).unwrap();
    assert!(!graph.protects_root(source));
    assert_eq!(graph.edge_count(), 0);
}

#[derive(Clone, Debug)]
struct Tab {
    name: String,
    breadcrumbs: ui_ratatui::explorer::breadcrumb::Breadcrumbs,
}

#[test]
fn tab_uses_ordinary_arena_reflection_borrow_and_deletion_paths() {
    let mut arena = Arena::default();
    let tab = arena
        .insert_ready(Tab {
            name: "admins".to_owned(),
            breadcrumbs: ui_ratatui::explorer::breadcrumb::Breadcrumbs::new(vec![]),
        })
        .unwrap();
    assert_eq!(arena.resolve_root(tab).unwrap().name, "admins");

    let tab_layout = ui_ratatui::explorer::reflected::ChildLayout::Fields(vec![
        "name".to_owned(),
        "breadcrumbs".to_owned(),
    ]);
    let breadcrumbs = ValueAddress::root(tab).child(ValuePathSegment::Field("breadcrumbs".to_owned()));
    assert_eq!(
        ui_ratatui::explorer::reflected::resolve_step(
            &ValueAddress::root(tab),
            &tab_layout,
            breadcrumbs.path().segments().last().unwrap()
        ),
        Ok(1)
    );
    assert!(arena.resolve_root(tab).unwrap().breadcrumbs.is_empty());

    let borrower = arena.reserve_builder().unwrap();
    let mut graph = BorrowGraph::default();
    let source = ValueAddress::root(tab);
    let lease = graph
        .borrow(arena.resolve_root(tab).is_ok(), source, borrower, "tab".to_owned())
        .unwrap();
    assert!(graph.protects_root(tab));
    graph.release(lease).unwrap();

    arena.delete(tab).unwrap();
    assert!(matches!(
        arena.resolve_root(tab),
        Err(ui_ratatui::explorer::arena::ArenaError::Tombstone {
            slot,
            previous: ui_ratatui::explorer::arena::SlotStateKind::Ready,
        }) if slot == tab
    ));
}
