use ui_ratatui::browser::browse_state::{
    navigation_anchor, navigation_origin, BrowseState, CardNavigation, WindowProgress,
};
use ui_ratatui::browser::pool_activation::{
    output_status, pool_activation, projection_status, projection_tab_name,
    should_read_root_snapshot, ActionInvocation, PoolActivation,
};
use ui_ratatui::explorer::builder::{BuilderFieldSnapshot, BuilderShapeKind, BuilderSnapshot};
use ui_ratatui::explorer::card::{
    CardRowContent, CardRowKey, CardRowSnapshot, CardSnapshot, CardWindow, RootActionSnapshot,
};
use ui_ratatui::explorer::card_address::CardAddress;
use ui_ratatui::explorer::field_binding::FieldBinding;
use ui_ratatui::explorer::ids::SlotId;
use ui_ratatui::explorer::revision::RootRevision;
use ui_ratatui::explorer::value_address::{ValueAddress, ValuePathSegment};
use ui_ratatui::browser::row_focus::{row_edge, row_move, RowMove};
use ui_ratatui::browser::row_focus::{focus_after_builder_step, next_builder_input};
use ui_ratatui::browser::row_focus::selected_card;

fn root_card(slot: u64) -> CardAddress {
    CardAddress::Value(ValueAddress::root(SlotId::new(slot)))
}

fn struct_builder() -> BuilderSnapshot {
    let unset = FieldBinding::<String>::Unset;
    BuilderSnapshot::observe(
        "Person",
        &BuilderShapeKind::Struct,
        None,
        false,
        2,
        vec![
            BuilderFieldSnapshot::new(0, "name", "String", false, &unset, ""),
            BuilderFieldSnapshot::new(1, "age", "usize", true, &unset, ""),
        ],
        8,
    )
}

#[test]
fn the_create_object_card_reserves_a_shape_unset_root() {
    assert_eq!(
        pool_activation(&CardAddress::NewSlot, None, None, None, ActionInvocation::Unavailable),
        PoolActivation::CreateShapeUnsetRoot
    );
    assert!(!should_read_root_snapshot(&CardAddress::NewSlot, None));
}

#[test]
fn builder_rows_open_their_editors() {
    let builder = struct_builder();
    let card = root_card(4);
    let activate = |key: CardRowKey| {
        pool_activation(&card, Some(&builder), Some(&key), None, ActionInvocation::Unavailable)
    };
    assert_eq!(activate(CardRowKey::Shape), PoolActivation::PickShape);
    assert_eq!(activate(CardRowKey::Variant), PoolActivation::PickVariant);
    assert_eq!(activate(CardRowKey::Value), PoolActivation::EditScalar);
    assert_eq!(
        activate(CardRowKey::Field("age".to_owned())),
        PoolActivation::PickFieldValue {
            field: 1,
            name: "age".to_owned(),
            shape_name: "usize".to_owned(),
        }
    );
    assert_eq!(activate(CardRowKey::Field("email".to_owned())), PoolActivation::Ignore);
}

#[test]
fn a_shape_unset_root_has_no_variant_to_pick() {
    let builder = BuilderSnapshot::shape_unset();
    assert_eq!(
        pool_activation(
            &root_card(1),
            Some(&builder),
            Some(&CardRowKey::Variant),
            None,
            ActionInvocation::Direct
        ),
        PoolActivation::Ignore
    );
}

#[test]
fn root_actions_and_relationships_activate_by_content() {
    let action = CardRowContent::RootAction(RootActionSnapshot::new("produce", "Produce JSON"));
    let key = CardRowKey::Action("produce".to_owned());
    let card = root_card(2);
    assert_eq!(
        pool_activation(&card, None, Some(&key), Some(&action), ActionInvocation::Arbitrary),
        PoolActivation::InvokeArbitrary
    );
    assert_eq!(
        pool_activation(&card, None, Some(&key), Some(&action), ActionInvocation::Direct),
        PoolActivation::Invoke
    );
    assert_eq!(
        pool_activation(&card, None, Some(&key), Some(&action), ActionInvocation::Unavailable),
        PoolActivation::Ignore
    );

    let target = ValueAddress::root(SlotId::new(2)).child(ValuePathSegment::Field("name".to_owned()));
    let relationship = CardRowContent::Address(target.clone());
    assert_eq!(
        pool_activation(
            &card,
            Some(&struct_builder()),
            Some(&CardRowKey::Field("nickname".to_owned())),
            Some(&relationship),
            ActionInvocation::Unavailable
        ),
        PoolActivation::OpenProjection(target)
    );
}

#[test]
fn builder_rows_apply_only_on_root_cards() {
    let nested = CardAddress::Value(
        ValueAddress::root(SlotId::new(4)).child(ValuePathSegment::Index(0)),
    );
    assert_eq!(
        pool_activation(
            &nested,
            Some(&struct_builder()),
            Some(&CardRowKey::Shape),
            None,
            ActionInvocation::Direct
        ),
        PoolActivation::Ignore
    );
    assert!(!should_read_root_snapshot(&nested, None));
    assert!(should_read_root_snapshot(&root_card(4), None));
    assert!(should_read_root_snapshot(&root_card(4), Some(SlotId::new(3))));
    assert!(!should_read_root_snapshot(&root_card(4), Some(SlotId::new(4))));
}

#[test]
fn activation_status_lines_name_slots_and_provenance() {
    assert_eq!(
        output_status("Produce JSON", SlotId::new(7), None),
        "Produce JSON created output slot 7 in a new tab"
    );
    assert_eq!(
        output_status("Produce JSON", SlotId::new(7), Some((3, SlotId::new(5)))),
        "Produce JSON created output slot 7 via arbitrary plan 3 and source slot 5 in a new tab"
    );
    let target = ValueAddress::root(SlotId::new(2)).child(ValuePathSegment::Field("members".to_owned()));
    assert_eq!(
        projection_status(&target, SlotId::new(9), None),
        "Opened slot 2.members in projection tab slot 9."
    );
    assert_eq!(
        projection_status(&target, SlotId::new(9), Some(SlotId::new(0))),
        "Opened slot 2.members in projection tab slot 9; source tab slot 0 is unchanged."
    );
    assert_eq!(projection_tab_name(Some("Vec<Member>"), &target), "Vec<Member>");
    assert_eq!(projection_tab_name(None, &target), "slot 2.members");
}

fn window_of(slots: &[u64]) -> CardWindow {
    let cards = slots
        .iter()
        .map(|slot| {
            CardSnapshot::owned(
                SlotId::new(*slot),
                "usize",
                RootRevision::default(),
                vec![CardRowSnapshot::new(
                    CardRowKey::Value,
                    "value",
                    CardRowContent::Text(slot.to_string()),
                )],
                true,
            )
        })
        .collect::<Vec<_>>();
    CardWindow::from_cards(cards, 0, false, true)
}

#[test]
fn navigation_scrolls_only_after_selection_leaves_the_window() {
    let window = window_of(&[0, 1, 2]);
    let address = |slot: u64| ValueAddress::root(SlotId::new(slot));

    assert_eq!(
        navigation_anchor(CardNavigation::Next, &address(0), &address(1), Some(&window)),
        None,
        "moving inside the window must not scroll"
    );
    assert_eq!(
        navigation_anchor(CardNavigation::Next, &address(1), &address(2), Some(&window)),
        None,
        "reaching the last visible card still does not scroll"
    );
    assert_eq!(
        navigation_anchor(CardNavigation::Next, &address(2), &address(3), Some(&window)),
        Some(CardAddress::Value(address(2))),
        "crossing the edge advances the logical viewport anchor once"
    );
    assert_eq!(
        navigation_anchor(CardNavigation::Previous, &address(0), &address(9), Some(&window)),
        Some(CardAddress::Value(address(9)))
    );
    assert_eq!(
        navigation_anchor(CardNavigation::Previous, &address(1), &address(0), None),
        Some(CardAddress::Value(address(0)))
    );
    assert_eq!(navigation_origin(&CardAddress::NewSlot), None);
    assert_eq!(navigation_origin(&root_card(3)), Some(address(3)));
}

#[test]
fn query_changes_reanchor_on_the_next_window_only() {
    let mut state = BrowseState::new();
    state.query_changed();
    assert!(state.reanchor_on_next_window);

    assert_eq!(state.apply_window_progress(WindowProgress::Pending), None);
    assert!(state.scanning);
    assert!(state.reanchor_on_next_window);

    assert_eq!(
        state.apply_window_progress(WindowProgress::Ready(window_of(&[5, 6]))),
        Some(root_card(5))
    );
    assert!(!state.scanning);
    assert!(!state.reanchor_on_next_window);
    assert_eq!(state.window.as_ref().map(|w| w.cards().len()), Some(2));

    assert_eq!(
        state.apply_window_progress(WindowProgress::Ready(window_of(&[7]))),
        None
    );

    state.query_changed();
    assert_eq!(
        state.apply_window_progress(WindowProgress::Complete),
        Some(CardAddress::NewSlot)
    );
    assert!(state.window.is_none());

    state.tab_changed();
    assert!(!state.reanchor_on_next_window);
    state.apply_window_progress(WindowProgress::Ready(window_of(&[1])));
    assert_eq!(state.apply_window_progress(WindowProgress::Cancelled), None);
    assert!(state.window.is_some());
    assert_eq!(state.apply_window_progress(WindowProgress::Stale), None);
    assert!(state.window.is_none());
}

fn rows(keys: &[CardRowKey]) -> Vec<CardRowSnapshot> {
    keys.iter()
        .map(|key| CardRowSnapshot::new(key.clone(), "row", CardRowContent::Text(String::new())))
        .collect()
}

#[test]
fn row_focus_moves_within_the_card_and_up_into_the_breadcrumb_bar() {
    let card_rows = rows(&[
        CardRowKey::Shape,
        CardRowKey::Field("name".to_owned()),
        CardRowKey::Field("age".to_owned()),
    ]);
    let name = CardRowKey::Field("name".to_owned());
    let age = CardRowKey::Field("age".to_owned());

    assert_eq!(row_move(&card_rows, None, true), RowMove::Focus(0));
    assert_eq!(row_move(&card_rows, Some(&name), true), RowMove::Focus(2));
    assert_eq!(row_move(&card_rows, Some(&age), true), RowMove::Focus(2));
    assert_eq!(row_move(&card_rows, Some(&age), false), RowMove::Focus(1));
    assert_eq!(row_move(&card_rows, Some(&CardRowKey::Shape), false), RowMove::ToBreadcrumbBar);
    assert_eq!(row_move(&card_rows, None, false), RowMove::ToBreadcrumbBar);
    assert_eq!(row_move(&card_rows, Some(&CardRowKey::Status), true), RowMove::Focus(0));
    assert_eq!(row_move(&[], None, true), RowMove::Clear);
    assert_eq!(row_move(&[], None, false), RowMove::ToBreadcrumbBar);

    assert_eq!(row_edge(&card_rows, true), Some(0));
    assert_eq!(row_edge(&card_rows, false), Some(2));
    assert_eq!(row_edge(&[], false), None);
}

#[test]
fn building_roots_focus_their_next_missing_input() {
    assert_eq!(
        next_builder_input(&BuilderSnapshot::shape_unset()),
        Some(CardRowKey::Shape)
    );
    let unset = FieldBinding::<String>::Unset;
    let set = FieldBinding::<String>::Default;
    let enum_builder = BuilderSnapshot::observe(
        "Choice",
        &BuilderShapeKind::Enum { variant_names: vec!["A".to_owned()] },
        None,
        false,
        0,
        vec![],
        8,
    );
    assert_eq!(next_builder_input(&enum_builder), Some(CardRowKey::Variant));
    let scalar = BuilderSnapshot::observe("u8", &BuilderShapeKind::Scalar, None, false, 0, vec![], 8);
    assert_eq!(next_builder_input(&scalar), Some(CardRowKey::Value));
    let scalar_set = BuilderSnapshot::observe("u8", &BuilderShapeKind::Scalar, None, true, 0, vec![], 8);
    assert_eq!(next_builder_input(&scalar_set), None);
    let person = BuilderSnapshot::observe(
        "Person",
        &BuilderShapeKind::Struct,
        None,
        false,
        3,
        vec![
            BuilderFieldSnapshot::new(0, "id", "u64", true, &set, ""),
            BuilderFieldSnapshot::new(1, "name", "String", false, &unset, ""),
            BuilderFieldSnapshot::new(2, "age", "usize", false, &unset, ""),
        ],
        8,
    );
    assert_eq!(next_builder_input(&person), Some(CardRowKey::Field("name".to_owned())));
    assert_eq!(focus_after_builder_step(true, Some(&person)), Some(CardRowKey::Shape));
    assert_eq!(
        focus_after_builder_step(false, Some(&person)),
        Some(CardRowKey::Field("name".to_owned()))
    );
    assert_eq!(focus_after_builder_step(false, None), None);
}

#[test]
fn the_selected_card_prefers_the_root_at_hand() {
    let window = window_of(&[1, 2, 3]);
    let root = CardSnapshot::owned(SlotId::new(2), "Person", RootRevision::default(), vec![], false);
    let found = selected_card(&root_card(2), Some(&root), window.cards()).unwrap();
    assert_eq!(found.shape(), "Person");
    let found = selected_card(&root_card(3), Some(&root), window.cards()).unwrap();
    assert_eq!(found.shape(), "usize");
    assert!(selected_card(&root_card(9), None, window.cards()).is_none());
    assert!(selected_card(&CardAddress::NewSlot, None, window.cards()).is_none());
}

#[test]
fn a_revisited_building_root_reads_its_snapshot_before_its_field_activates() {
    let unset = FieldBinding::<String>::Unset;
    let card = root_card(6);
    assert!(should_read_root_snapshot(&card, None));
    let builder = BuilderSnapshot::observe(
        "BrowserProductionDestination",
        &BuilderShapeKind::Struct,
        None,
        false,
        1,
        vec![BuilderFieldSnapshot::new(0, "value", "String", false, &unset, "")],
        8,
    );
    assert_eq!(
        pool_activation(
            &card,
            Some(&builder),
            Some(&CardRowKey::Field("value".to_owned())),
            None,
            ActionInvocation::Unavailable
        ),
        PoolActivation::PickFieldValue {
            field: 0,
            name: "value".to_owned(),
            shape_name: "String".to_owned(),
        }
    );
    assert!(!should_read_root_snapshot(&card, Some(SlotId::new(6))));
}
