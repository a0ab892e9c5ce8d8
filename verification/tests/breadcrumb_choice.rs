use ui_ratatui::browser::breadcrumb_choice::{
    picked_breadcrumb, picked_fields, picked_shapes, BreadcrumbEdit, BreadcrumbPickerTarget,
    BreadcrumbPickerValue,
};
use ui_ratatui::explorer::breadcrumb::{Breadcrumb, ProjectFieldsMode, ProjectedField};
use ui_ratatui::browser::bar_activation::{bar_activation, BarActivation};
use ui_ratatui::browser::bar_focus::BreadcrumbBarFocus;
use ui_ratatui::explorer::breadcrumb::ValueFilterOperator;
use ui_ratatui::browser::bar_activation::picker_subject;
use ui_ratatui::explorer::card::{CardRowContent, CardRowKey, CardRowSnapshot, CardSnapshot};
use ui_ratatui::explorer::ids::SlotId;
use ui_ratatui::explorer::revision::RootRevision;
use ui_ratatui::explorer::value_address::{ValueAddress, ValuePathSegment};

fn shape(name: &str) -> BreadcrumbPickerValue {
    BreadcrumbPickerValue::Shape(name.to_owned())
}

fn field(shape: &str, name: &str) -> BreadcrumbPickerValue {
    BreadcrumbPickerValue::Field(ProjectedField::new(shape, name))
}

#[test]
fn picked_shapes_are_sorted_and_deduplicated() {
    let picked = vec![shape("Tab"), shape("Member"), field("Tab", "name"), shape("Tab")];
    assert_eq!(picked_shapes(&picked), ["Member", "Tab"]);
    assert_eq!(
        picked_breadcrumb(BreadcrumbPickerTarget::Shapes { edit_index: None }, &picked),
        BreadcrumbEdit::Push(Breadcrumb::ShapeFilter {
            included_shapes: vec!["Member".to_owned(), "Tab".to_owned()],
        })
    );
}

#[test]
fn picked_fields_sort_by_shape_then_field_and_replace_the_edited_operation() {
    let picked = vec![
        field("Tab", "name"),
        field("Member", "permission_objects"),
        shape("Ignored"),
        field("Member", "display_name"),
        field("Tab", "name"),
    ];
    assert_eq!(
        picked_fields(&picked),
        [
            ProjectedField::new("Member", "display_name"),
            ProjectedField::new("Member", "permission_objects"),
            ProjectedField::new("Tab", "name"),
        ]
    );
    let edit = picked_breadcrumb(
        BreadcrumbPickerTarget::Fields {
            edit_index: Some(2),
            mode: ProjectFieldsMode::Project,
        },
        &picked,
    );
    match edit {
        BreadcrumbEdit::Replace { index, breadcrumb } => {
            assert_eq!(index, 2);
            assert!(matches!(
                breadcrumb,
                Breadcrumb::ProjectFields { mode: ProjectFieldsMode::Project, ref included_fields }
                    if included_fields.len() == 3
            ));
        }
        other => panic!("expected a replacement, got {other:?}"),
    }
}

#[test]
fn picking_order_does_not_change_the_breadcrumb() {
    let first = vec![shape("b"), shape("a"), shape("c")];
    let second = vec![shape("c"), shape("a"), shape("b"), shape("a")];
    assert_eq!(picked_shapes(&first), picked_shapes(&second));
    assert!(picked_shapes(&[].to_vec()).is_empty());
}

#[test]
fn activating_the_breadcrumb_bar_edits_the_focused_operation() {
    let operations = vec![
        Breadcrumb::ShapeFilter { included_shapes: vec!["Tab".to_owned()] },
        Breadcrumb::ProjectFields {
            mode: ProjectFieldsMode::Extend,
            included_fields: vec![ProjectedField::new("Tab", "name")],
        },
        Breadcrumb::ValueFilter {
            field_shape: "String".to_owned(),
            field_name: "name".to_owned(),
            operator: ValueFilterOperator::Contains,
            value: "admins".to_owned(),
        },
        Breadcrumb::Pop,
    ];
    let at = |position: usize| BreadcrumbBarFocus { position };
    assert_eq!(
        bar_activation(at(0), 4, &operations),
        BarActivation::EditShapes { index: 0, included_shapes: vec!["Tab".to_owned()] }
    );
    assert_eq!(
        bar_activation(at(1), 4, &operations),
        BarActivation::EditFields {
            index: 1,
            mode: ProjectFieldsMode::Extend,
            included_fields: vec![ProjectedField::new("Tab", "name")],
        }
    );
    assert_eq!(
        bar_activation(at(2), 4, &operations),
        BarActivation::EditValue {
            index: 2,
            field_shape: "String".to_owned(),
            field_name: "name".to_owned(),
            operator: ValueFilterOperator::Contains,
            value: "admins".to_owned(),
        }
    );
    assert_eq!(bar_activation(at(3), 4, &operations), BarActivation::NotEditable);
    assert_eq!(bar_activation(at(4), 4, &operations), BarActivation::OpenMenu);
    assert_eq!(bar_activation(at(4), 5, &operations), BarActivation::FocusAdd);
}

#[test]
fn new_breadcrumbs_are_chosen_for_the_focused_relationship_or_the_card() {
    let root = ValueAddress::root(SlotId::new(1));
    let members = root.clone().child(ValuePathSegment::Field("members".to_owned()));
    let card = CardSnapshot::owned(
        SlotId::new(1),
        "Team",
        RootRevision::default(),
        vec![
            CardRowSnapshot::new(CardRowKey::Shape, "shape", CardRowContent::Text("Team".to_owned())),
            CardRowSnapshot::new(
                CardRowKey::Field("members".to_owned()),
                "members",
                CardRowContent::Address(members.clone()),
            )
            .with_type_label("Vec<Member>"),
            CardRowSnapshot::new(
                CardRowKey::Field("owner".to_owned()),
                "owner",
                CardRowContent::Address(root.clone().child(ValuePathSegment::Field("owner".to_owned()))),
            ),
        ],
        true,
    );
    assert_eq!(
        picker_subject(Some(&card), Some(&CardRowKey::Field("members".to_owned()))),
        Some((members, "Vec<Member>".to_owned()))
    );
    assert_eq!(
        picker_subject(Some(&card), Some(&CardRowKey::Field("owner".to_owned()))).map(|s| s.1),
        Some("Team".to_owned())
    );
    assert_eq!(
        picker_subject(Some(&card), Some(&CardRowKey::Shape)),
        Some((root.clone(), "Team".to_owned()))
    );
    assert_eq!(picker_subject(Some(&card), None), Some((root, "Team".to_owned())));
    assert_eq!(picker_subject(Some(&CardSnapshot::new_slot()), None), None);
    assert_eq!(picker_subject(None, None), None);
}
