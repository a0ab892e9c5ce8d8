use ui_ratatui::explorer::arena::{Arena, ArenaError, SlotStateKind};
use ui_ratatui::explorer::ids::SlotId;
use ui_ratatui::explorer::reflected::{
    child_addresses, child_count, resolve_root_at, resolve_step, ChildLayout, ValueResolutionError,
};
use ui_ratatui::explorer::value_address::{ValueAddress, ValuePathSegment};
use ui_ratatui::explorer::card::{relationship_row, CardRowContent, CardRowKey, CardSnapshot, CardWindow};
use ui_ratatui::explorer::card_address::CardAddress;
use ui_ratatui::explorer::revision::RootRevision;
use ui_ratatui::explorer::breadcrumb::ProjectedField;
use ui_ratatui::explorer::breadcrumb_context::{BreadcrumbContextSnapshot, ContextCollector, ValueCollector};
use ui_ratatui::explorer::work_budget::WorkBudget;

fn field(name: &str) -> ValuePathSegment {
    ValuePathSegment::Field(name.to_owned())
}

fn names(texts: &[&str]) -> Vec<String> {
    texts.iter().map(|text| (*text).to_owned()).collect()
}

#[derive(Clone, Debug)]
struct MyThing {
    age: usize,
    name: String,
}

fn my_thing_layout() -> ChildLayout {
    ChildLayout::Fields(names(&["age", "name"]))
}

#[test]
fn my_thing_fields_are_addresses_not_arena_slots() {
    let mut arena = Arena::default();
    let root = arena
        .insert_ready(MyThing {
            age: 42,
            name: "Ada".to_owned(),
        })
        .unwrap();
    let allocated = arena.allocated_slot_count();
    let age = ValueAddress::root(root).child(field("age"));
    let name = ValueAddress::root(root).child(field("name"));

    let (value, _) = resolve_root_at(&arena, &age, None).unwrap();
    let age_position =
        resolve_step(&ValueAddress::root(root), &my_thing_layout(), &field("age")).unwrap();
    let name_position =
        resolve_step(&ValueAddress::root(root), &my_thing_layout(), &field("name")).unwrap();
    assert_eq!(age_position, 0);
    assert_eq!(name_position, 1);
    assert_eq!(value.age, 42);
    let (value, _) = resolve_root_at(&arena, &name, None).unwrap();
    assert_eq!(value.name, "Ada");
    assert_eq!(arena.allocated_slot_count(), allocated);
    assert_eq!(allocated, 1, "reflected children never allocate SlotIds");
}

#[test]
fn resolution_failures_preserve_the_specific_address_cause() {
    let mut arena = Arena::default();
    let root = arena.insert_ready("fixture".to_owned()).unwrap();
    let building = arena.reserve_builder().unwrap();

    assert!(matches!(
        resolve_root_at(&arena, &ValueAddress::root(SlotId::new(10_000)), None),
        Err(ValueResolutionError::Root(ArenaError::UnknownSlot(_)))
    ));
    assert!(matches!(
        resolve_root_at(&arena, &ValueAddress::root(building), None),
        Err(ValueResolutionError::Root(ArenaError::RootNotReady {
            state: SlotStateKind::Building,
            ..
        }))
    ));

    let fixture = ChildLayout::Fields(names(&["members", "pair", "fixed", "scores", "names"]));
    let missing_field = resolve_step(&ValueAddress::root(root), &fixture, &field("unknown"));
    assert!(matches!(
        missing_field,
        Err(ValueResolutionError::MissingField { field, .. }) if field == "unknown"
    ));

    let fixed = ValueAddress::root(root).child(field("fixed"));
    assert!(matches!(
        resolve_step(&fixed, &ChildLayout::Elements(2), &ValuePathSegment::Index(9)),
        Err(ValueResolutionError::IndexOutOfRange {
            index: 9,
            len: 2,
            ..
        })
    ));

    let scores = ValueAddress::root(root).child(field("scores"));
    assert!(matches!(
        resolve_step(
            &scores,
            &ChildLayout::Keys(names(&["admins"])),
            &ValuePathSegment::Key("missing".to_owned())
        ),
        Err(ValueResolutionError::MissingKey { key, .. }) if key == "missing"
    ));

    let scalar = ValueAddress::root(root)
        .child(field("pair"))
        .child(ValuePathSegment::Index(0));
    assert!(matches!(
        resolve_step(&scalar, &ChildLayout::Leaf, &ValuePathSegment::Index(0)),
        Err(ValueResolutionError::SegmentNotSupported {
            segment: ValuePathSegment::Index(0),
            ..
        })
    ));
}

#[test]
fn observed_root_revision_detects_stale_reads_without_changing_address_identity() {
    let mut arena = Arena::default();
    let root = arena.insert_ready("fixture".to_owned()).unwrap();
    let address = ValueAddress::root(root).child(field("members"));
    let (_, observed) = resolve_root_at(&arena, &address, None).unwrap();

    arena.delete(root).unwrap();
    assert!(matches!(
        resolve_root_at(&arena, &address, Some(observed)),
        Err(ValueResolutionError::StaleRootRevision {
            root: stale_root,
            expected,
            actual,
        }) if stale_root == root && expected == observed && actual != observed
    ));
    assert!(matches!(
        resolve_root_at(&arena, &address, None),
        Err(ValueResolutionError::Root(ArenaError::Tombstone { slot, .. })) if slot == root
    ));
    assert_eq!(address, ValueAddress::root(root).child(field("members")));
}

#[test]
fn million_value_first_window_does_not_materialize_all_paths() {
    let mut arena = Arena::default();
    let root = arena.insert_ready((0_usize..1_000_000).collect::<Vec<_>>()).unwrap();
    let layout = ChildLayout::Elements(arena.ready_value(root).unwrap().len());

    let children = child_addresses(ValueAddress::root(root), false, layout).unwrap();
    let mut first_window = vec![ValueAddress::root(root)];
    for ordinal in 0..8 {
        first_window.push(children.get(ordinal).unwrap());
    }

    assert_eq!(children.len(), 1_000_000);
    assert_eq!(first_window[0], ValueAddress::root(root));
    assert_eq!(first_window.len(), 9);
    for (index, address) in first_window[1..].iter().enumerate() {
        assert_eq!(address.path().segments(), [ValuePathSegment::Index(index)]);
    }
}

#[test]
fn proxied_and_empty_values_expose_no_children() {
    let parent = ValueAddress::root(SlotId::new(3));
    assert!(child_addresses(parent.clone(), true, my_thing_layout()).is_none());
    assert!(child_addresses(parent.clone(), false, ChildLayout::Leaf).is_none());
    assert!(child_addresses(parent.clone(), false, ChildLayout::Elements(0)).is_none());
    assert!(child_addresses(parent.clone(), false, ChildLayout::Keys(Vec::new())).is_none());
    assert!(child_addresses(parent, false, ChildLayout::UnreadableVariant).is_none());
}

#[test]
fn children_follow_reflection_order_and_step_kind() {
    let parent = ValueAddress::root(SlotId::new(1)).child(field("scores"));
    let children =
        child_addresses(parent.clone(), false, ChildLayout::Keys(names(&["zeta", "alpha"]))).unwrap();
    assert_eq!(children.len(), 2);
    assert_eq!(
        children.get(0),
        Some(parent.clone().child(ValuePathSegment::Key("zeta".to_owned())))
    );
    assert_eq!(
        children.get(1),
        Some(parent.clone().child(ValuePathSegment::Key("alpha".to_owned())))
    );
    assert_eq!(children.get(2), None);

    let tuple = child_addresses(parent.clone(), false, ChildLayout::Tuple(2)).unwrap();
    assert_eq!(tuple.get(1), Some(parent.child(ValuePathSegment::Index(1))));
    assert_eq!(child_count(&my_thing_layout()), 2);
}

#[test]
fn every_listed_child_resolves_from_its_own_step() {
    let parent = ValueAddress::root(SlotId::new(0));
    let layout = ChildLayout::Fields(names(&["id", "name", "id"]));
    let children = child_addresses(parent.clone(), false, layout.clone()).unwrap();
    let mut resolved = Vec::new();
    for ordinal in 0..children.len() {
        let child = children.get(ordinal).unwrap();
        let step = child.path().segments().last().unwrap().clone();
        resolved.push(resolve_step(&parent, &layout, &step).unwrap());
    }
    assert_eq!(resolved, [0, 1, 0]);
}

#[test]
fn unreadable_enum_variants_report_reflection_errors() {
    let parent = ValueAddress::root(SlotId::new(2));
    assert!(matches!(
        resolve_step(&parent, &ChildLayout::UnreadableVariant, &field("value")),
        Err(ValueResolutionError::Reflection { .. })
    ));
    assert!(matches!(
        resolve_step(
            &parent,
            &ChildLayout::Fields(names(&["value"])),
            &ValuePathSegment::Key("value".to_owned())
        ),
        Err(ValueResolutionError::SegmentNotSupported { .. })
    ));
    assert_eq!(
        resolve_step(&parent, &ChildLayout::Tuple(3), &ValuePathSegment::Index(2)),
        Ok(2)
    );
}

fn field_cards(
    root: ValueAddress,
    shape: &str,
    layout: ChildLayout,
    children: &[(&str, &str)],
    max_relationship_rows: usize,
) -> Vec<CardSnapshot> {
    let listed = child_addresses(root.clone(), false, layout).unwrap();
    let rows = (0..listed.len())
        .map(|ordinal| {
            let (type_label, display) = children[ordinal];
            relationship_row(listed.get(ordinal).unwrap(), type_label, Some(display))
        })
        .collect::<Vec<_>>();
    let mut cards = vec![CardSnapshot::observe(
        root,
        shape,
        RootRevision::default(),
        Some(rows),
        None,
        vec![],
        max_relationship_rows,
    )];
    for ordinal in 0..listed.len() {
        let (type_label, display) = children[ordinal];
        cards.push(CardSnapshot::observe(
            listed.get(ordinal).unwrap(),
            type_label,
            RootRevision::default(),
            None,
            Some(display),
            vec![],
            max_relationship_rows,
        ));
    }
    cards
}

#[test]
fn my_thing_is_one_owned_card_plus_addressed_field_cards() {
    let mut arena = Arena::default();
    let root = arena
        .insert_ready(MyThing {
            age: 42,
            name: "Ada".to_owned(),
        })
        .unwrap();
    let cards = field_cards(
        ValueAddress::root(root),
        "MyThing",
        my_thing_layout(),
        &[("usize", "42"), ("String", "Ada")],
        8,
    );
    let window = CardWindow::from_cards(cards, 0, false, false);
    let age = ValueAddress::root(root).child(field("age"));
    let name = ValueAddress::root(root).child(field("name"));

    assert_eq!(window.cards().len(), 3);
    assert!(!window.has_before());
    assert!(!window.has_after());

    let root_card = &window.cards()[0];
    assert_eq!(root_card.address(), &CardAddress::Value(ValueAddress::root(root)));
    assert_eq!(root_card.owned_slot(), Some(root));
    assert_eq!(root_card.shape(), "MyThing");
    assert!(root_card.relationships_complete());
    assert!(root_card.rows().iter().any(|row| {
        row.key() == &CardRowKey::Field("age".to_owned())
            && row.content() == &CardRowContent::Address(age.clone())
    }));
    assert!(root_card.rows().iter().any(|row| {
        row.key() == &CardRowKey::Field("name".to_owned())
            && row.content() == &CardRowContent::Address(name.clone())
    }));

    assert_eq!(window.cards()[1].address(), &CardAddress::Value(age));
    assert_eq!(window.cards()[2].address(), &CardAddress::Value(name));
    assert_eq!(window.cards()[1].owned_slot(), None);
    assert_eq!(window.cards()[2].owned_slot(), None);
    assert!(window.cards()[2].rows().iter().any(|row| {
        row.key() == &CardRowKey::Value && row.content() == &CardRowContent::Text("Ada".to_owned())
    }));
    assert_eq!(
        arena.allocated_slot_count(),
        1,
        "cards and rows are projections, not ownership identities"
    );
}

#[test]
fn card_and_relationship_budgets_bound_large_sequence_observation() {
    let mut arena = Arena::default();
    let root = arena.insert_ready((0_usize..1_000_000).collect::<Vec<_>>()).unwrap();
    let max_cards = 8;
    let max_relationship_rows = 3;
    let values = arena.ready_value(root).unwrap();
    let listed = child_addresses(
        ValueAddress::root(root),
        false,
        ChildLayout::Elements(values.len()),
    )
    .unwrap();

    let rows = (0..=max_relationship_rows)
        .map(|ordinal| {
            relationship_row(listed.get(ordinal).unwrap(), "usize", Some(values[ordinal].to_string().as_str()))
        })
        .collect::<Vec<_>>();
    let mut cards = vec![CardSnapshot::observe(
        ValueAddress::root(root),
        "Vec<usize>",
        RootRevision::default(),
        Some(rows),
        None,
        vec![],
        max_relationship_rows,
    )];
    for ordinal in 0..max_cards - 1 {
        cards.push(CardSnapshot::observe(
            listed.get(ordinal).unwrap(),
            "usize",
            RootRevision::default(),
            None,
            Some(values[ordinal].to_string().as_str()),
            vec![],
            max_relationship_rows,
        ));
    }
    let has_after = listed.len() > max_cards - 1;
    let window = CardWindow::from_cards(cards, 0, false, has_after);

    assert_eq!(window.cards().len(), 8);
    assert!(window.has_after());
    assert_eq!(window.cards()[0].rows().len(), 4);
    assert!(!window.cards()[0].relationships_complete());
    assert!(window.cards().iter().skip(1).all(|card| card.owned_slot().is_none()));
}

#[test]
fn typed_resolution_handles_nested_collections_and_transparent_wrappers() {
    let mut arena = Arena::default();
    let root = arena.insert_ready("fixture".to_owned()).unwrap();
    let fixture = ChildLayout::Fields(names(&["members", "pair", "fixed", "scores", "names"]));
    let member = ChildLayout::Fields(names(&["permission_objects"]));
    let permission = ChildLayout::Fields(names(&["display_name"]));
    let permission_names = ["Readers", "Project Administrators"];

    let walk = |steps: &[(ChildLayout, ValuePathSegment)]| {
        let mut address = ValueAddress::root(root);
        let mut ordinals = Vec::new();
        for (layout, segment) in steps {
            ordinals.push(resolve_step(&address, layout, segment).unwrap());
            address = address.child(segment.clone());
        }
        (address, ordinals)
    };

    let (permission_name, ordinals) = walk(&[
        (fixture.clone(), field("members")),
        (ChildLayout::Elements(1), ValuePathSegment::Index(0)),
        (member, field("permission_objects")),
        (ChildLayout::Elements(2), ValuePathSegment::Index(1)),
        (permission, field("display_name")),
    ]);
    assert_eq!(ordinals, [0, 0, 0, 1, 0]);
    assert_eq!(permission_names[ordinals[3]], "Project Administrators");
    assert_eq!(permission_name.path().segments().len(), 5);

    let (_, ordinals) = walk(&[
        (fixture.clone(), field("pair")),
        (ChildLayout::Tuple(2), ValuePathSegment::Index(1)),
    ]);
    assert_eq!(ordinals, [1, 1]);

    let fixed = [11_u16, 13];
    let (_, ordinals) = walk(&[
        (fixture.clone(), field("fixed")),
        (ChildLayout::Elements(2), ValuePathSegment::Index(1)),
    ]);
    assert_eq!(fixed[ordinals[1]], 13);

    let scores = [("admins", 42_usize)];
    let (_, ordinals) = walk(&[
        (fixture.clone(), field("scores")),
        (ChildLayout::Keys(names(&["admins"])), ValuePathSegment::Key("admins".to_owned())),
    ]);
    assert_eq!(scores[ordinals[1]].1, 42);

    let transparent = ["Ada", "Grace"];
    let (_, ordinals) = walk(&[
        (fixture, field("names")),
        (ChildLayout::Elements(2), ValuePathSegment::Index(1)),
    ]);
    assert_eq!(transparent[ordinals[1]], "Grace");
}

/// A reflected value for scripted scans: the shape name reflection reports
/// and what it exposes.
enum TestValue {
    Scalar(&'static str, String),
    Struct(&'static str, Vec<(&'static str, TestValue)>),
    List(&'static str, Vec<TestValue>),
    Range(&'static str, &'static str, usize),
}

impl TestValue {
    fn shape(&self) -> &'static str {
        match self {
            TestValue::Scalar(shape, _)
            | TestValue::Struct(shape, _)
            | TestValue::List(shape, _)
            | TestValue::Range(shape, _, _) => *shape,
        }
    }

    fn layout(&self) -> ChildLayout {
        match self {
            TestValue::Scalar(..) => ChildLayout::Leaf,
            TestValue::Struct(_, fields) => {
                ChildLayout::Fields(fields.iter().map(|(name, _)| (*name).to_owned()).collect())
            }
            TestValue::List(_, items) => ChildLayout::Elements(items.len()),
            TestValue::Range(_, _, len) => ChildLayout::Elements(*len),
        }
    }

    fn child(&self, ordinal: usize) -> TestValue {
        match self {
            TestValue::Struct(_, fields) => fields[ordinal].1.duplicate(),
            TestValue::List(_, items) => items[ordinal].duplicate(),
            TestValue::Range(_, element, _) => TestValue::Scalar(*element, ordinal.to_string()),
            TestValue::Scalar(..) => unreachable!("scalars have no children"),
        }
    }

    fn duplicate(&self) -> TestValue {
        match self {
            TestValue::Scalar(shape, text) => TestValue::Scalar(*shape, text.clone()),
            TestValue::Struct(shape, fields) => TestValue::Struct(
                *shape,
                fields.iter().map(|(name, value)| (*name, value.duplicate())).collect(),
            ),
            TestValue::List(shape, items) => {
                TestValue::List(*shape, items.iter().map(TestValue::duplicate).collect())
            }
            TestValue::Range(shape, element, len) => TestValue::Range(*shape, *element, *len),
        }
    }
}

/// Visits `value` and its descendants in preorder, one unit of `budget`
/// per address; false when the budget ran out first.
fn scan(
    value: &TestValue,
    address: ValueAddress,
    budget: &mut WorkBudget,
    visit: &mut dyn FnMut(&ValueAddress, &TestValue),
) -> bool {
    if !budget.try_consume() {
        return false;
    }
    visit(&address, value);
    let Some(children) = child_addresses(address, false, value.layout()) else {
        return true;
    };
    for ordinal in 0..children.len() {
        if !scan(&value.child(ordinal), children.get(ordinal).unwrap(), budget, visit) {
            return false;
        }
    }
    true
}

fn context_thing(name: &str, age: usize) -> TestValue {
    TestValue::Struct(
        "ContextThing",
        vec![
            ("name", TestValue::Scalar("String", name.to_owned())),
            ("age", TestValue::Scalar("usize", age.to_string())),
        ],
    )
}

fn inspect_context(value: &TestValue, root: SlotId, max_work: usize, max_choices: usize) -> BreadcrumbContextSnapshot {
    let mut collector = ContextCollector::start(max_work, max_choices).unwrap();
    let mut budget = WorkBudget::new(max_work);
    let complete = scan(value, ValueAddress::root(root), &mut budget, &mut |_, value| {
        let named = match value {
            TestValue::Struct(_, fields) => fields
                .iter()
                .map(|(name, field)| ((*name).to_owned(), field.shape().to_owned()))
                .collect(),
            _ => Vec::new(),
        };
        collector.observe(value.shape(), &named);
    });
    collector.finish(budget.spent(), complete)
}

#[test]
fn context_metadata_is_reflected_lazily_from_the_query_prefix() {
    let mut arena = Arena::default();
    let root = arena.insert_ready(context_thing("Ada", 42)).unwrap();

    let snapshot = inspect_context(arena.ready_value(root).unwrap(), root, 16, 16);

    assert!(snapshot.shapes().iter().any(|shape| shape == "ContextThing"));
    assert!(snapshot.fields().iter().any(|field| {
        field.selection() == &ProjectedField::new("ContextThing", "name")
            && field.field_shape() == "String"
    }));
    assert!(snapshot.inspected() <= 16);
    assert!(snapshot.complete());
}

#[test]
fn context_scan_obeys_work_budget_for_million_element_values() {
    let mut arena = Arena::default();
    let root = arena.insert_ready(TestValue::Range("Vec<usize>", "usize", 1_000_000)).unwrap();

    let snapshot = inspect_context(arena.ready_value(root).unwrap(), root, 7, 16);

    assert_eq!(snapshot.inspected(), 7);
    assert!(!snapshot.complete());
}

#[test]
fn value_context_returns_bounded_scalar_values_for_a_reflected_field() {
    let mut arena = Arena::default();
    let root = arena
        .insert_ready(TestValue::List(
            "Vec<ContextThing>",
            vec![context_thing("Ada", 42), context_thing("Grace", 37)],
        ))
        .unwrap();
    let mut collector = ValueCollector::start("String", "name", 32, 8).unwrap();
    let mut budget = WorkBudget::new(32);
    let value = arena.ready_value(root).unwrap();
    let complete = scan(value, ValueAddress::root(root), &mut budget, &mut |address, value| {
        let last_field = match address.path().segments().last() {
            Some(ValuePathSegment::Field(name)) => Some(name.as_str()),
            _ => None,
        };
        let text = match value {
            TestValue::Scalar(_, text) => Some(text.as_str()),
            _ => None,
        };
        collector.consider(last_field, Some(value.shape()), text);
    });
    let values = collector.finish(budget.spent(), complete);

    assert_eq!(values.values(), ["Ada", "Grace"]);
    assert!(values.complete());
    assert!(values.inspected() <= 32);
}

#[test]
fn field_picker_labels_preserve_owner_and_type_context() {
    let mut arena = Arena::default();
    let root = arena
        .insert_ready(TestValue::Struct(
            "PickerThing",
            vec![("name", TestValue::Scalar("String", "Ada".to_owned()))],
        ))
        .unwrap();
    let snapshot = inspect_context(arena.ready_value(root).unwrap(), root, 8, 8);

    assert!(snapshot
        .fields()
        .iter()
        .any(|field| field.label() == "PickerThing.name (String)"));
}
