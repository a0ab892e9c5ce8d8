use ui_ratatui::explorer::breadcrumb::{
    Breadcrumb, Breadcrumbs, ProjectFieldsMode, ProjectedField, ValueFilterOperator,
};
use ui_ratatui::explorer::breadcrumb_context::{
    insert_bounded, BreadcrumbContextField, ContextCollector, ValueCollector,
};
use ui_ratatui::explorer::card::{
    relationship_row, CardRowContent, CardRowKey, CardRowSnapshot, CardSnapshot, CardWindow,
    FieldBindingSnapshot, RootActionSnapshot,
};
use ui_ratatui::explorer::card_address::CardAddress;
use ui_ratatui::explorer::field_binding::FieldBinding;
use ui_ratatui::explorer::field_candidate::FieldBindingError;
use ui_ratatui::explorer::ids::{allocate_query_session, QuerySessionId, SlotId};
use ui_ratatui::explorer::revision::RootRevision;
use ui_ratatui::explorer::value_address::{ValueAddress, ValuePathSegment};

#[test]
fn canonical_breadcrumb_operations_round_trip_without_a_ui_model() {
    let operations = vec![
        Breadcrumb::projection(
            7,
            vec![
                ValuePathSegment::Index(3),
                ValuePathSegment::Field("permission_objects".to_owned()),
            ],
        ),
        Breadcrumb::ShapeFilter {
            included_shapes: vec!["AzureDevOpsProjectPermissionObject".to_owned()],
        },
        Breadcrumb::AddressKindFilter {
            include_roots: false,
            include_descendants: true,
        },
        Breadcrumb::ValueFilter {
            field_shape: "String".to_owned(),
            field_name: "displayName".to_owned(),
            operator: ValueFilterOperator::Equals,
            value: "Project Administrators".to_owned(),
        },
        Breadcrumb::ProjectFields {
            mode: ProjectFieldsMode::Project,
            included_fields: vec![ProjectedField::new("Thing", "name")],
        },
        Breadcrumb::Pop,
    ];
    let breadcrumbs = Breadcrumbs::new(operations.clone());

    assert_eq!(breadcrumbs.operations(), operations);
}

#[test]
fn move_binding_accepts_only_an_owned_root_address() {
    let root = ValueAddress::root(SlotId::new(4));
    assert!(matches!(
        FieldBinding::<String>::move_from_address(root),
        Ok(FieldBinding::MoveFrom(slot)) if slot == SlotId::new(4)
    ));

    let nested = ValueAddress::root(SlotId::new(4))
        .child(ValuePathSegment::Field("breadcrumbs".to_owned()));
    assert_eq!(
        FieldBinding::<String>::move_from_address(nested.clone())
            .err()
            .expect("a projected field has no independent ownership to move"),
        FieldBindingError::NestedMoveSource(nested)
    );
}

#[test]
fn binding_snapshot_retains_generic_source_identity() {
    let source = ValueAddress::root(SlotId::new(4))
        .child(ValuePathSegment::Field("breadcrumbs".to_owned()));

    assert_eq!(
        FieldBindingSnapshot::from_binding(&FieldBinding::<String>::CloneFrom(source.clone()), ""),
        FieldBindingSnapshot::CloneFrom(source.clone())
    );
    assert_eq!(
        FieldBindingSnapshot::from_binding(&FieldBinding::<String>::BorrowFrom(source.clone()), ""),
        FieldBindingSnapshot::BorrowFrom(source)
    );
    assert_eq!(
        FieldBindingSnapshot::from_binding(&FieldBinding::<String>::MoveFrom(SlotId::new(8)), ""),
        FieldBindingSnapshot::MoveFrom(SlotId::new(8))
    );
    assert_eq!(
        FieldBindingSnapshot::from_binding(&FieldBinding::InlineOwned(5_u32), "u32"),
        FieldBindingSnapshot::InlineOwned {
            shape: "u32".to_owned()
        }
    );
}

#[test]
fn binding_kinds_report_resolution_and_labels() {
    assert!(!FieldBinding::<String>::Unset.is_resolved());
    assert!(!FieldBinding::<String>::PendingProducer.is_resolved());
    assert!(FieldBinding::<String>::Default.is_resolved());
    assert!(FieldBinding::InlineOwned("x".to_owned()).is_resolved());
    assert_eq!(FieldBinding::<String>::PendingProducer.label(), "PendingProducer");
    assert_eq!(FieldBinding::<String>::MoveFrom(SlotId::new(1)).label(), "MoveFrom");
}

fn owned_card(slot: u64) -> CardSnapshot {
    CardSnapshot::owned(
        SlotId::new(slot),
        "usize",
        RootRevision::default(),
        vec![CardRowSnapshot::new(
            CardRowKey::Value,
            "value",
            CardRowContent::Text(slot.to_string()),
        )],
        true,
    )
}

#[test]
fn new_slot_uses_one_cell_and_keeps_the_tail_window_full() {
    let cards = (0_u64..5).map(owned_card).collect::<Vec<_>>();
    let window = CardWindow::from_cards(cards, 0, false, false);
    assert!(!window.has_after());

    let with_new = window.including_new_slot(5);

    assert_eq!(with_new.cards().len(), 5);
    assert_eq!(
        with_new.cards().last().map(CardSnapshot::address),
        Some(&CardAddress::NewSlot)
    );
    assert!(with_new.has_before());
    assert!(!with_new.has_after());
    assert_eq!(with_new.start_ordinal(), 1);
}

#[test]
fn query_sessions_are_handed_out_in_order() {
    let mut next = 3_u64;
    assert_eq!(allocate_query_session(&mut next), QuerySessionId::new(3));
    assert_eq!(allocate_query_session(&mut next), QuerySessionId::new(4));
    assert_eq!(next, 5);
}

#[test]
fn bounded_choices_stay_sorted_and_mark_truncation() {
    let mut values: Vec<String> = Vec::new();
    let mut truncated = false;
    for value in ["pear", "apple", "pear", "fig"] {
        insert_bounded(&mut values, value.to_owned(), 3, &mut truncated);
    }
    assert_eq!(values, ["apple", "fig", "pear"]);
    assert!(!truncated);
    insert_bounded(&mut values, "apple".to_owned(), 3, &mut truncated);
    assert!(!truncated);
    insert_bounded(&mut values, "banana".to_owned(), 3, &mut truncated);
    assert_eq!(values, ["apple", "fig", "pear"]);
    assert!(truncated);
}

#[test]
fn context_collector_keeps_shapes_and_fields_sorted() {
    assert_eq!(
        ContextCollector::start(0, 16).err().unwrap(),
        "breadcrumb context inspection needs a positive work budget"
    );
    assert_eq!(
        ContextCollector::start(16, 0).err().unwrap(),
        "breadcrumb context inspection needs a positive choice limit"
    );
    let mut collector = ContextCollector::start(16, 16).unwrap();
    collector.observe(
        "ContextThing",
        &vec![
            ("name".to_owned(), "String".to_owned()),
            ("age".to_owned(), "usize".to_owned()),
        ],
    );
    collector.observe("String", &vec![]);
    let snapshot = collector.finish(3, true);
    assert_eq!(snapshot.shapes(), ["ContextThing", "String"]);
    assert_eq!(snapshot.fields().len(), 2);
    assert_eq!(
        snapshot.fields()[0].selection(),
        &ProjectedField::new("ContextThing", "age")
    );
    assert!(snapshot.fields().iter().any(|field| {
        field.selection() == &ProjectedField::new("ContextThing", "name")
            && field.field_shape() == "String"
    }));
    assert_eq!(snapshot.fields()[1].label(), "ContextThing.name (String)");
    assert_eq!(snapshot.inspected(), 3);
    assert!(snapshot.complete());
}

#[test]
fn context_snapshot_is_incomplete_when_a_choice_is_turned_away() {
    let mut collector = ContextCollector::start(4, 1).unwrap();
    collector.observe("A", &vec![]);
    collector.observe("B", &vec![]);
    let snapshot = collector.finish(2, true);
    assert_eq!(snapshot.shapes(), ["A"]);
    assert!(!snapshot.complete());
    let unfinished = ContextCollector::start(4, 4).unwrap().finish(4, false);
    assert!(!unfinished.complete());
}

#[test]
fn value_collector_keeps_only_the_named_field_of_the_wanted_shape() {
    assert_eq!(
        ValueCollector::start("String", "name", 0, 8).err().unwrap(),
        "breadcrumb value inspection needs positive limits"
    );
    let mut collector = ValueCollector::start("String", "name", 32, 8).unwrap();
    collector.consider(Some("name"), Some("String"), Some("Grace"));
    collector.consider(Some("name"), Some("String"), Some("Ada"));
    collector.consider(Some("age"), Some("usize"), Some("42"));
    collector.consider(Some("name"), Some("u32"), Some("7"));
    collector.consider(None, Some("String"), Some("root"));
    collector.consider(Some("name"), None, None);
    collector.consider(Some("name"), Some("String"), None);
    assert_eq!(collector.child_limit(), 9);
    let values = collector.finish(5, true);
    assert_eq!(values.values(), ["Ada", "Grace"]);
    assert!(values.complete());
    assert_eq!(values.inspected(), 5);
}

#[test]
fn context_field_orders_by_shape_then_field_then_field_shape() {
    let mut fields: Vec<BreadcrumbContextField> = Vec::new();
    let mut truncated = false;
    for (shape, field, field_shape) in [("B", "a", "x"), ("A", "z", "y"), ("A", "z", "b"), ("A", "a", "q")] {
        insert_bounded(
            &mut fields,
            BreadcrumbContextField::new(ProjectedField::new(shape, field), field_shape),
            10,
            &mut truncated,
        );
    }
    let labels = fields.iter().map(BreadcrumbContextField::label).collect::<Vec<_>>();
    assert_eq!(labels, ["A.a (q)", "A.z (b)", "A.z (y)", "B.a (x)"]);
}

#[test]
fn observed_cards_bound_their_relationship_rows() {
    let root = ValueAddress::root(SlotId::new(0));
    let children = (0..4_usize)
        .map(|index| {
            relationship_row(
                root.clone().child(ValuePathSegment::Index(index)),
                "usize",
                Some(&index.to_string()),
            )
        })
        .collect::<Vec<_>>();
    assert_eq!(children[2].label(), "[2]");
    assert_eq!(children[2].key(), &CardRowKey::Element(2));
    assert_eq!(children[2].value_display(), Some("2"));
    let card = CardSnapshot::observe(root.clone(), "Vec<usize>", RootRevision::default(), Some(children), None, vec![], 3);
    assert_eq!(card.rows().len(), 4);
    assert!(!card.relationships_complete());
    assert_eq!(card.owned_slot(), Some(SlotId::new(0)));
    assert_eq!(card.shape(), "Vec<usize>");

    let name = root.clone().child(ValuePathSegment::Field("name".to_owned()));
    let leaf = CardSnapshot::observe(name.clone(), "String", RootRevision::default(), None, Some("Ada"), vec![RootActionSnapshot::new("a", "never offered")], 8);
    assert_eq!(leaf.owned_slot(), None);
    assert_eq!(leaf.rows().len(), 2);
    assert_eq!(leaf.rows()[1].key(), &CardRowKey::Value);
    assert_eq!(leaf.rows()[1].content(), &CardRowContent::Text("Ada".to_owned()));
    assert!(leaf.relationships_complete());

    let actions = vec![RootActionSnapshot::new("consume", "consume"), RootActionSnapshot::new("retain", "retain")];
    let owned = CardSnapshot::observe(root.clone(), "Thing", RootRevision::default(), Some(vec![]), None, actions, 1);
    assert_eq!(owned.rows().len(), 2);
    assert_eq!(owned.rows()[1].key(), &CardRowKey::Action("consume".to_owned()));
    assert!(!owned.relationships_complete());

    let keyed = relationship_row(root.child(ValuePathSegment::Key("a\"b".to_owned())), "u8", None);
    assert_eq!(keyed.label(), "[\"a\\\"b\"]");
    assert_eq!(keyed.key(), &CardRowKey::MapValue("a\"b".to_owned()));
    assert_eq!(keyed.type_label(), Some("u8"));
}
