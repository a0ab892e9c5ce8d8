use ui_ratatui::browser::bar_focus::BreadcrumbBarFocus;
use ui_ratatui::browser::breadcrumb_picker::{BreadcrumbPicker, BreadcrumbPickerChoice};
use ui_ratatui::browser::row_search::{
    matching_rows, rank_with_fuzzy_matches, ranked_indices, row_search_label, RowSearchState,
};
use ui_ratatui::browser::value_picker::fuzzy_tokens_match;
use ui_ratatui::explorer::breadcrumb::{
    Breadcrumb, ProjectFieldsMode, ProjectedField, ValueFilterOperator,
};
use ui_ratatui::explorer::card::{
    CardRowContent, CardRowKey, CardRowSnapshot, CardSnapshot, FieldBindingSnapshot,
};
use ui_ratatui::explorer::card_address::CardAddress;
use ui_ratatui::explorer::ids::SlotId;
use ui_ratatui::explorer::revision::RootRevision;
use ui_ratatui::explorer::value_address::{ValueAddress, ValuePathSegment};

#[test]
fn breadcrumb_focus_moves_between_operations_and_add_without_ordinals_leaking() {
    let mut focus = BreadcrumbBarFocus::add(2);
    assert!(focus.is_add(2));

    focus.move_previous();
    assert_eq!(focus.operation(2), Some(1));
    focus.move_previous();
    assert_eq!(focus.operation(2), Some(0));
    focus.move_previous();
    assert_eq!(focus.operation(2), Some(0));

    focus.move_next(2);
    focus.move_next(2);
    assert!(focus.is_add(2));
}

#[test]
fn filter_shapes_is_the_default_breadcrumb_choice_without_an_initial_selection() {
    let address = ValueAddress::root(SlotId::new(5))
        .child(ValuePathSegment::Index(3))
        .child(ValuePathSegment::Field("display_name".to_owned()));
    let picker = BreadcrumbPicker::new(Some((&address, "String")), &[]);

    assert_eq!(picker.selected_index(), 0);
    assert_eq!(picker.selected().unwrap().label(), "filter shapes…");
    assert!(matches!(
        picker.selected().unwrap().choice(),
        BreadcrumbPickerChoice::PickShapes {
            edit_index: None,
            initially_included,
        } if initially_included.is_empty()
    ));
}

#[test]
fn selected_reflected_field_still_offers_generic_value_filters() {
    let address = ValueAddress::root(SlotId::new(5))
        .child(ValuePathSegment::Index(3))
        .child(ValuePathSegment::Field("display_name".to_owned()));
    let picker = BreadcrumbPicker::new(Some((&address, "String")), &[]);
    let row = picker
        .rows()
        .iter()
        .find(|row| row.label() == "filter display_name equals …")
        .expect("the selected reflected field contributes a value filter");

    assert_eq!(row.label(), "filter display_name equals …");
    assert!(matches!(
        row.choice(),
        BreadcrumbPickerChoice::PromptValue {
            field_shape,
            field_name,
            operator: ValueFilterOperator::Equals,
            ..
        } if field_shape == "String" && field_name == "display_name"
    ));
}

#[test]
fn existing_shape_and_field_breadcrumbs_reopen_as_edit_choices() {
    let picker = BreadcrumbPicker::new(
        None,
        &[
            Breadcrumb::ShapeFilter {
                included_shapes: vec!["Thing".to_owned()],
            },
            Breadcrumb::ProjectFields {
                mode: ProjectFieldsMode::Project,
                included_fields: vec![ProjectedField::new("Thing", "name")],
            },
        ],
    );

    assert_eq!(picker.rows()[0].label(), "filter shapes…");
    assert_eq!(
        picker.rows()[2].label(),
        "edit breadcrumb 2: project to fields"
    );
    assert!(matches!(
        picker.rows()[1].choice(),
        BreadcrumbPickerChoice::PickShapes {
            edit_index: Some(0),
            initially_included,
        } if initially_included == &["Thing"]
    ));
    assert!(
        picker
            .rows()
            .iter()
            .any(|row| row.label() == "extend from fields")
    );
}

#[test]
fn breadcrumb_picker_selection_stays_within_its_rows() {
    let mut picker = BreadcrumbPicker::new(None, &[]);
    let last = picker.rows().len() - 1;
    for _ in 0..picker.rows().len() + 3 {
        picker.move_next();
    }
    assert_eq!(picker.selected_index(), last);
    for _ in 0..picker.rows().len() + 3 {
        picker.move_previous();
    }
    assert_eq!(picker.selected_index(), 0);
}

fn request_card() -> CardSnapshot {
    CardSnapshot::owned(
        SlotId::new(4),
        "Request",
        RootRevision::default(),
        vec![
            CardRowSnapshot::new(
                CardRowKey::Field("organization".to_owned()),
                "organization",
                CardRowContent::Text("unset".to_owned()),
            ),
            CardRowSnapshot::new(
                CardRowKey::Action("clone-invoke".to_owned()),
                "action",
                CardRowContent::Text("clone and invoke".to_owned()),
            ),
        ],
        true,
    )
}

#[test]
fn nucleo_row_search_prioritizes_plain_substrings_then_fuzzy_matches() {
    let card = request_card();

    let search = RowSearchState::new(&card, "clone invoke");

    assert_eq!(
        search.selected(),
        Some(&CardRowKey::Action("clone-invoke".to_owned()))
    );
    assert_eq!(
        card.address(),
        &CardAddress::Value(ValueAddress::root(SlotId::new(4)))
    );
}

#[test]
fn blank_query_keeps_every_row_in_order() {
    let labels = vec!["b".to_owned(), "a".to_owned(), "c".to_owned()];
    assert_eq!(ranked_indices("  ", &labels), vec![0, 1, 2]);
    assert_eq!(ranked_indices("", &labels), vec![0, 1, 2]);
}

#[test]
fn prefix_matches_come_before_substring_matches_ignoring_case() {
    let labels = vec![
        "the Name field".to_owned(),
        "NAME".to_owned(),
        "other".to_owned(),
        "name tag".to_owned(),
    ];
    let ranked = ranked_indices("name", &labels);
    assert_eq!(&ranked[..3], &[1, 3, 0]);
    assert!(!ranked.contains(&2));
}

#[test]
fn fuzzy_matches_take_the_first_unranked_row_with_that_label() {
    let labels = vec!["abc".to_owned(), "xyz".to_owned(), "xyz".to_owned()];
    let matched = vec!["xyz".to_owned(), "xyz".to_owned(), "xyz".to_owned(), "missing".to_owned()];
    assert_eq!(rank_with_fuzzy_matches("q", &labels, &matched), vec![1, 2]);
    assert_eq!(
        rank_with_fuzzy_matches("ab", &labels, &vec!["abc".to_owned(), "xyz".to_owned()]),
        vec![0, 1]
    );
}

#[test]
fn row_search_labels_carry_type_label_and_content() {
    let row = CardRowSnapshot::new(
        CardRowKey::Field("owner".to_owned()),
        "owner",
        CardRowContent::Binding(FieldBindingSnapshot::Default),
    )
    .with_type_label("String");
    assert_eq!(row_search_label(&row), "type String owner default");
    let moved = CardRowSnapshot::new(
        CardRowKey::Value,
        "value",
        CardRowContent::Binding(FieldBindingSnapshot::MoveFrom(SlotId::new(12))),
    );
    assert_eq!(row_search_label(&moved), "value move slot 12");
}

#[test]
fn row_search_moves_within_matches_and_edits_its_query() {
    let card = request_card();
    let mut search = RowSearchState::new(&card, "");
    assert_eq!(search.matches().len(), 2);
    search.move_by(5);
    assert_eq!(
        search.selected(),
        Some(&CardRowKey::Action("clone-invoke".to_owned()))
    );
    search.move_by(-9);
    assert_eq!(
        search.selected(),
        Some(&CardRowKey::Field("organization".to_owned()))
    );
    search.move_to_edge(false);
    assert_eq!(
        search.selected(),
        Some(&CardRowKey::Action("clone-invoke".to_owned()))
    );
    search.push(&card, 'o');
    search.push(&card, 'r');
    assert_eq!(search.query(), "or");
    assert_eq!(
        search.matches()[0],
        CardRowKey::Field("organization".to_owned())
    );
    search.pop(&card);
    search.pop(&card);
    search.pop(&card);
    assert_eq!(search.query(), "");
    assert_eq!(matching_rows(&card, "").len(), 2);
}

#[test]
fn value_picker_tokens_match_in_any_order_ignoring_case() {
    assert!(fuzzy_tokens_match("Project Administrators", "admin PROJECT"));
    assert!(fuzzy_tokens_match("anything", "   "));
    assert!(!fuzzy_tokens_match("Project Administrators", "admin readers"));
    assert!(!fuzzy_tokens_match("", "x"));
}

#[test]
fn white_space_matches_the_unicode_property() {
    for code in 0_u32..=0x10FFFF {
        if let Some(c) = char::from_u32(code) {
            assert_eq!(ui_ratatui::text::is_whitespace(c), c.is_whitespace(), "{code:#x}");
        }
    }
}

#[test]
fn blank_texts_hold_only_white_space() {
    assert!(ui_ratatui::text::is_blank(" \t\u{3000}\n"));
    assert!(ui_ratatui::text::is_blank(""));
    assert!(!ui_ratatui::text::is_blank(" x "));
}

#[test]
fn text_order_agrees_with_string_order() {
    let texts = ["", "a", "ab", "abc", "b", "B", "Z", "é", "e\u{301}", "ü", "\u{10348}", "\u{FFFD}", "a\u{0}", "ä", "zz"];
    for a in texts {
        for b in texts {
            assert_eq!(ui_ratatui::text::text_precedes(a, b), a < b, "{a:?} {b:?}");
            assert_eq!(ui_ratatui::text::same_text(a, b), a == b);
        }
    }
}
