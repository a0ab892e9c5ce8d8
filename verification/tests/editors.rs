use ui_ratatui::browser::breadcrumb_choice::BreadcrumbEdit;
use ui_ratatui::browser::editors::{
    closed_status, link_source_ready, query_change_status, renamed_status, scalar_editor_for_root,
    switched_status, BreadcrumbValueEditorState, PendingFieldLink,
};
use ui_ratatui::explorer::breadcrumb::{Breadcrumb, ValueFilterOperator};
use ui_ratatui::explorer::builder::{BuilderShapeKind, BuilderSnapshot};
use ui_ratatui::explorer::ids::SlotId;
use ui_ratatui::explorer::value_address::{ValueAddress, ValuePathSegment};

#[test]
fn scalar_editors_open_only_for_scalar_builders_with_a_shape() {
    let scalar = BuilderSnapshot::observe("u8", &BuilderShapeKind::Scalar, None, false, 0, vec![], 4);
    let mut editor = scalar_editor_for_root(SlotId::new(3), Some(&scalar)).unwrap();
    assert_eq!(editor.slot, SlotId::new(3));
    assert_eq!(editor.shape_name, "u8");
    assert_eq!(editor.text, "");
    editor.push('4');
    editor.push('2');
    editor.pop();
    editor.push('7');
    assert_eq!(editor.text, "47");

    let person = BuilderSnapshot::observe("Person", &BuilderShapeKind::Struct, None, false, 0, vec![], 4);
    assert!(scalar_editor_for_root(SlotId::new(3), Some(&person)).is_none());
    assert!(scalar_editor_for_root(SlotId::new(3), Some(&BuilderSnapshot::shape_unset())).is_none());
    assert!(scalar_editor_for_root(SlotId::new(3), None).is_none());
}

#[test]
fn value_filter_editors_push_or_replace_their_filter() {
    let mut editor = BreadcrumbValueEditorState {
        edit_index: None,
        field_shape: "String".to_owned(),
        field_name: "name".to_owned(),
        operator: ValueFilterOperator::Equals,
        text: String::new(),
    };
    editor.pop();
    for c in "adminz".chars() {
        editor.push(c);
    }
    editor.pop();
    editor.push('s');
    assert_eq!(
        editor.finish(),
        BreadcrumbEdit::Push(Breadcrumb::ValueFilter {
            field_shape: "String".to_owned(),
            field_name: "name".to_owned(),
            operator: ValueFilterOperator::Equals,
            value: "admins".to_owned(),
        })
    );
    let editor = BreadcrumbValueEditorState {
        edit_index: Some(1),
        field_shape: "usize".to_owned(),
        field_name: "age".to_owned(),
        operator: ValueFilterOperator::NotEquals,
        text: "42".to_owned(),
    };
    assert!(matches!(editor.finish(), BreadcrumbEdit::Replace { index: 1, .. }));
}

#[test]
fn pending_links_open_when_their_source_root_becomes_ready() {
    let link = PendingFieldLink {
        destination: SlotId::new(1),
        field: 0,
        source: ValueAddress::root(SlotId::new(5)),
    };
    assert!(link_source_ready(Some(&link), SlotId::new(5), true));
    assert!(!link_source_ready(Some(&link), SlotId::new(5), false));
    assert!(!link_source_ready(Some(&link), SlotId::new(4), true));
    assert!(!link_source_ready(None, SlotId::new(5), true));
    let nested = PendingFieldLink {
        destination: SlotId::new(1),
        field: 0,
        source: ValueAddress::root(SlotId::new(5)).child(ValuePathSegment::Index(0)),
    };
    assert!(!link_source_ready(Some(&nested), SlotId::new(5), true));
}

#[test]
fn tab_edits_report_their_status() {
    assert_eq!(
        query_change_status(SlotId::new(0), 2),
        "Tab slot 0 now has 2 lazy breadcrumb operations."
    );
    assert_eq!(renamed_status(SlotId::new(3), "admins"), "Renamed tab slot 3 to admins.");
    assert_eq!(switched_status(SlotId::new(12)), "Switched to tab slot 12.");
    assert_eq!(closed_status(SlotId::new(0)), "Closed tab; active tab is slot 0.");
}
