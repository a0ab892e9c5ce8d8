use ui_ratatui::browser::bar_focus::BreadcrumbBarFocus;
use ui_ratatui::browser::layout::{breadcrumb_header, configure_viewport, ViewportPlan};
use ui_ratatui::browser::keys::{
    breadcrumb_bar_key_action, BarAction, escape_outcome, escape_warning, is_control, key_gate, picker_key_action, pool_key_action,
    row_search_key_action, EscapeOutcome, KeyCodeInput, KeyGate, KeyInput, KeyKind, PickerAction,
    PoolAction, RowSearchAction,
};
use ui_ratatui::browser::renderer::{
    card_border_tone, card_title, content_look, field_group_tone, marker_row, row_scrollbar,
    scroll_offset, status_tone, CardLayoutAxis, CardLine, CardWindowRenderer, Look,
    ScrollbarPlan, Tone,
};
use ui_ratatui::explorer::builder::{BuilderFieldSnapshot, BuilderKindSnapshot, BuilderShapeKind, BuilderSnapshot};
use ui_ratatui::explorer::card::{
    CardRowContent, CardRowKey, CardRowSnapshot, CardSnapshot, CardWindow, FieldBindingSnapshot,
};
use ui_ratatui::explorer::card_address::CardAddress;
use ui_ratatui::explorer::end_scan::{QueryTotal, ScanProgress};
use ui_ratatui::explorer::field_binding::FieldBinding;
use ui_ratatui::explorer::ids::SlotId;
use ui_ratatui::explorer::revision::RootRevision;
use ui_ratatui::explorer::value_address::{ValueAddress, ValuePathSegment};
use ui_ratatui::explorer::card::relationship_row;

fn key(code: KeyCodeInput) -> KeyInput {
    KeyInput {
        code,
        kind: KeyKind::Press,
        shift: false,
        control: false,
        alt: false,
    }
}

fn card(slot: u64, rows: Vec<CardRowSnapshot>, complete: bool) -> CardSnapshot {
    CardSnapshot::owned(SlotId::new(slot), "Thing", RootRevision::default(), rows, complete)
}

fn window_of(count: u64) -> CardWindow {
    CardWindow::from_cards((0..count).map(|slot| card(slot, vec![], true)).collect(), 10, true, true)
}

#[test]
fn visible_cards_scroll_to_keep_the_selection() {
    let window = window_of(6);
    let selected = CardAddress::Value(ValueAddress::root(SlotId::new(5)));
    let renderer = CardWindowRenderer::new(&window, &selected, None, CardLayoutAxis::Horizontal, false, 30);
    let (shown, start) = renderer.visible_cards(90);
    assert_eq!(shown, [3, 4, 5]);
    assert_eq!(start, 3);
    let (all, from) = renderer.visible_cards(200);
    assert_eq!(all, [0, 1, 2, 3, 4, 5]);
    assert_eq!(from, 0);
    assert_eq!(renderer.visible_cards(10).0, [5]);
    assert!(renderer.show_card_scrollbar(2));
    assert!(!renderer.show_card_scrollbar(1));
    let plan = renderer
        .with_query_total(QueryTotal::Exact(40))
        .card_scrollbar(&shown, start);
    assert_eq!(
        plan,
        ScrollbarPlan {
            content_length: 38,
            position: 13,
            viewport: 3
        }
    );
    let filled = CardWindowRenderer::new(&window, &selected, None, CardLayoutAxis::Vertical, true, 30);
    assert_eq!(filled.visible_cards(90), (vec![5], 0));
    assert!(!filled.show_card_scrollbar(20));
    let scanning = CardWindowRenderer::new(&window, &selected, None, CardLayoutAxis::Horizontal, false, 30)
        .with_query_total(QueryTotal::Scanning(ScanProgress { inspected: 9, matched: 2 }));
    assert_eq!(scanning.card_scrollbar(&shown, start).content_length, 15);
}

#[test]
fn card_lines_describe_rows_with_accents_and_selection() {
    let rows = vec![
        CardRowSnapshot::new(CardRowKey::Shape, "shape", CardRowContent::Text("Thing".to_owned())),
        CardRowSnapshot::new(
            CardRowKey::Field("name".to_owned()),
            "name",
            CardRowContent::Binding(FieldBindingSnapshot::Unset),
        )
        .with_type_label("String"),
        CardRowSnapshot::new(
            CardRowKey::Field("age".to_owned()),
            "age",
            CardRowContent::Text("42".to_owned()),
        )
        .with_type_label("usize")
        .with_value_display("42"),
    ];
    let shown = card(7, rows, false);
    let window = CardWindow::single(shown.clone());
    let selected = CardAddress::Value(ValueAddress::root(SlotId::new(7)));
    let row = CardRowKey::Field("age".to_owned());
    let renderer = CardWindowRenderer::new(&window, &selected, Some(&row), CardLayoutAxis::Horizontal, false, 30);
    let lines = renderer.card_lines(&shown);
    assert_eq!(
        lines.lines,
        [
            CardLine::Row { row: 0, selected: false, accent: Tone::White },
            CardLine::Type { row: 1, accent: Tone::Blue },
            CardLine::Row { row: 1, selected: false, accent: Tone::Blue },
            CardLine::TypedRow { row: 2, selected: true, accent: Tone::Green },
            CardLine::ValueDisplay { row: 2, selected: true, tone: Tone::Green },
            CardLine::MoreRelationships,
        ]
    );
    assert_eq!(lines.selected_line, Some(3));
    assert_eq!(lines.focused_line, Some(4));
    let new_slot = CardSnapshot::new_slot();
    assert_eq!(renderer.card_lines(&new_slot).lines, [CardLine::NewSlot { selected: false }]);
    let visible = [CardRowKey::Value];
    let searching = renderer.with_visible_rows(Some(&visible));
    assert_eq!(
        searching.card_lines(&shown).lines,
        [CardLine::NoMatchingRows, CardLine::MoreRelationships]
    );
    assert_eq!(card_title(&shown), "slot 7 [owned]");
    assert_eq!(card_title(&new_slot), "new slot");
}

#[test]
fn tones_follow_status_and_ownership() {
    assert_eq!(status_tone("Pending"), Tone::Yellow);
    assert_eq!(status_tone("Failed"), Tone::Red);
    assert_eq!(status_tone("Consumed"), Tone::DarkGray);
    assert_eq!(status_tone("Ready"), Tone::Green);
    assert_eq!(field_group_tone(5), Tone::Green);
    assert_eq!(field_group_tone(7), Tone::Magenta);
    let failing = card(
        1,
        vec![CardRowSnapshot::new(CardRowKey::Status, "status", CardRowContent::Text("Failed".to_owned()))],
        true,
    );
    assert_eq!(card_border_tone(&failing), Tone::Red);
    assert_eq!(card_border_tone(&card(1, vec![], true)), Tone::Green);
    assert_eq!(card_border_tone(&CardSnapshot::new_slot()), Tone::DarkGray);
    let (text, look) = content_look(&failing.rows()[0], Tone::Blue);
    assert_eq!(text, "Failed");
    assert_eq!(look, Look { tone: Tone::Red, bold: true, dim: false });
}

#[test]
fn card_scrolling_keeps_the_focused_line_in_view() {
    assert_eq!(scroll_offset(20, 5, Some(12)), 8);
    assert_eq!(scroll_offset(20, 5, Some(2)), 0);
    assert_eq!(scroll_offset(6, 5, Some(5)), 1);
    assert_eq!(scroll_offset(20, 5, None), 0);
    assert_eq!(marker_row(true, Some(12), 8, 5), Some(4));
    assert_eq!(marker_row(false, Some(12), 8, 5), None);
    assert_eq!(marker_row(true, Some(3), 8, 5), None);
    assert_eq!(
        row_scrollbar(true, 20, 5, 8),
        Some(ScrollbarPlan { content_length: 16, position: 8, viewport: 5 })
    );
    assert_eq!(row_scrollbar(true, 4, 5, 0), None);
}

#[test]
fn pool_keys_map_to_actions() {
    let shifted = KeyInput { shift: true, ..key(KeyCodeInput::Char('{')) };
    assert_eq!(pool_key_action(shifted, false), PoolAction::SwitchTabPrevious);
    let control_w = KeyInput { control: true, ..key(KeyCodeInput::Char('w')) };
    assert_eq!(pool_key_action(control_w, true), PoolAction::CloseTab);
    assert_eq!(pool_key_action(key(KeyCodeInput::Left), true), PoolAction::BreadcrumbBar);
    assert_eq!(pool_key_action(key(KeyCodeInput::Left), false), PoolAction::NavigatePrevious);
    assert_eq!(pool_key_action(key(KeyCodeInput::Char(' ')), false), PoolAction::Activate);
    assert_eq!(pool_key_action(key(KeyCodeInput::Char('q')), false), PoolAction::StartRowSearch('q'));
    assert_eq!(pool_key_action(key(KeyCodeInput::F(3)), false), PoolAction::ToggleFill);
    assert_eq!(pool_key_action(key(KeyCodeInput::Char('\u{7}')), false), PoolAction::Ignore);
    let alt_plus = KeyInput { alt: true, ..key(KeyCodeInput::Char('=')) };
    assert_eq!(pool_key_action(alt_plus, false), PoolAction::GrowCards);
    assert!(is_control('\u{9f}'));
    assert!(!is_control('a'));
}

#[test]
fn key_gate_and_mode_keys() {
    let release = KeyInput { kind: KeyKind::Release, ..key(KeyCodeInput::Enter) };
    assert_eq!(key_gate(release), KeyGate::Ignore);
    let repeated_escape = KeyInput { kind: KeyKind::Repeat, ..key(KeyCodeInput::Esc) };
    assert_eq!(key_gate(repeated_escape), KeyGate::Ignore);
    let control_c = KeyInput { control: true, ..key(KeyCodeInput::Char('C')) };
    assert_eq!(key_gate(control_c), KeyGate::Quit);
    assert_eq!(key_gate(key(KeyCodeInput::Esc)), KeyGate::Dispatch);
    assert_eq!(row_search_key_action(key(KeyCodeInput::PageUp)), RowSearchAction::Move(-10));
    assert_eq!(row_search_key_action(key(KeyCodeInput::Char('x'))), RowSearchAction::Push('x'));
    assert_eq!(row_search_key_action(key(KeyCodeInput::Char(' '))), RowSearchAction::Ignore);
    assert_eq!(picker_key_action(key(KeyCodeInput::Char(' '))), PickerAction::Push(' '));
    let alt_x = KeyInput { alt: true, ..key(KeyCodeInput::Char('x')) };
    assert_eq!(picker_key_action(alt_x), PickerAction::Ignore);
}

#[test]
fn escape_pops_breadcrumbs_then_requires_three_presses_to_exit() {
    let (outcome, presses) = escape_outcome(true, 2, &vec![1], 10);
    assert_eq!(outcome, EscapeOutcome::CloseFocus);
    assert!(presses.is_empty());
    let (outcome, _) = escape_outcome(false, 2, &vec![], 10);
    assert_eq!(outcome, EscapeOutcome::PopBreadcrumb);
    let second = 1_000_000_000_u64;
    let (first_outcome, kept) = escape_outcome(false, 0, &vec![], 0);
    assert_eq!(first_outcome, EscapeOutcome::Warn { remaining: 2 });
    let (second_outcome, kept) = escape_outcome(false, 0, &kept, second);
    assert_eq!(second_outcome, EscapeOutcome::Warn { remaining: 1 });
    let (third_outcome, _) = escape_outcome(false, 0, &kept, 2 * second);
    assert_eq!(third_outcome, EscapeOutcome::Quit);
    let (late, kept_late) = escape_outcome(false, 0, &vec![0, second], 7 * second);
    assert_eq!(late, EscapeOutcome::Warn { remaining: 2 });
    assert_eq!(kept_late, [7 * second]);
    assert_eq!(escape_warning(2), "Hit Esc 2 more times within 5 seconds to exit.");
    assert_eq!(escape_warning(1), "Hit Esc 1 more time within 5 seconds to exit.");
}

#[test]
fn builder_snapshots_keep_a_bounded_prefix_of_fields() {
    let fields = (0..4)
        .map(|index| {
            BuilderFieldSnapshot::new(
                index,
                &format!("f{index}"),
                "String",
                index % 2 == 0,
                &FieldBinding::<String>::Unset,
                "",
            )
        })
        .collect::<Vec<_>>();
    let snapshot = BuilderSnapshot::observe(
        "Thing",
        &BuilderShapeKind::Enum { variant_names: vec!["A".to_owned(), "B".to_owned()] },
        Some(1),
        false,
        4,
        fields,
        3,
    );
    assert_eq!(snapshot.fields().len(), 3);
    assert!(!snapshot.fields_complete());
    assert_eq!(snapshot.shape_name(), Some("Thing"));
    assert_eq!(
        snapshot.kind(),
        &BuilderKindSnapshot::Enum {
            selected_variant: Some(1),
            selected_variant_name: Some("B".to_owned())
        }
    );
    assert_eq!(snapshot.fields()[2].name(), "f2");
    assert!(snapshot.fields()[2].has_default());
    assert_eq!(snapshot.fields()[2].binding(), &FieldBindingSnapshot::Unset);
    assert_eq!(snapshot.fields()[2].index(), 2);
    assert_eq!(snapshot.fields()[2].shape_name(), "String");
    let unset = BuilderSnapshot::shape_unset();
    assert_eq!(unset.kind(), &BuilderKindSnapshot::ShapeUnset);
    assert!(unset.fields_complete());
    assert_eq!(unset.shape_name(), None);
    let scalar = BuilderSnapshot::observe("u32", &BuilderShapeKind::Scalar, None, true, 0, vec![], 5);
    assert_eq!(scalar.kind(), &BuilderKindSnapshot::Scalar { value_is_set: true });
    assert!(scalar.fields_complete());
}

fn scrollbar_plan(window: &CardWindow, selected: &CardAddress, total: Option<usize>) -> ScrollbarPlan {
    let renderer = CardWindowRenderer::new(window, selected, None, CardLayoutAxis::Horizontal, false, 12);
    let renderer = match total {
        Some(total) => renderer.with_query_total(QueryTotal::Exact(total)),
        None => renderer,
    };
    assert!(renderer.show_card_scrollbar(12));
    let (shown, start) = renderer.visible_cards(48);
    renderer.card_scrollbar(&shown, start)
}

#[test]
fn horizontal_scrollbar_thumb_size_does_not_change_with_position() {
    let cards = (0_u64..20).map(|slot| card(slot, vec![], true)).collect::<Vec<_>>();
    let first = CardWindow::from_cards(cards[..10].to_vec(), 0, false, true);
    let second = CardWindow::from_cards(cards[10..].to_vec(), 10, true, false);
    let first_selected = first.cards()[0].address().clone();
    let second_selected = second.cards()[0].address().clone();
    let first_plan = scrollbar_plan(&first, &first_selected, Some(21));
    let second_plan = scrollbar_plan(&second, &second_selected, Some(21));

    assert_eq!(
        (first_plan.content_length, first_plan.viewport),
        (second_plan.content_length, second_plan.viewport),
        "the horizontal thumb size must be derived from total content, not its current position"
    );
    assert_ne!(first_plan.position, second_plan.position);
}

#[test]
fn horizontal_scrollbar_stays_put_when_selection_stays_in_the_viewport() {
    let cards = (0_u64..20).map(|slot| card(slot, vec![], true)).collect::<Vec<_>>();
    let window = CardWindow::from_cards(cards, 0, false, true);
    let first = window.cards()[0].address().clone();
    let second = window.cards()[1].address().clone();

    assert_eq!(
        scrollbar_plan(&window, &first, None),
        scrollbar_plan(&window, &second, None),
        "selection movement inside the rendered card viewport must not move its scrollbar"
    );
}

#[test]
fn viewport_budget_follows_the_layout_axis() {
    assert_eq!(
        configure_viewport(CardLayoutAxis::Horizontal, 120, 24, 38, 10),
        ViewportPlan { main_axis: 120, max_cards: 3, max_relationship_rows: 20 }
    );
    assert_eq!(
        configure_viewport(CardLayoutAxis::Vertical, 120, 24, 38, 10),
        ViewportPlan { main_axis: 24, max_cards: 2, max_relationship_rows: 8 }
    );
    assert_eq!(configure_viewport(CardLayoutAxis::Horizontal, 10, 0, 0, 0).max_relationship_rows, 1);
    assert_eq!(configure_viewport(CardLayoutAxis::Horizontal, 1000, 200, 1, 1).max_cards, 128);
    assert_eq!(configure_viewport(CardLayoutAxis::Horizontal, 1000, 200, 1, 1).max_relationship_rows, 64);
}

#[test]
fn breadcrumb_header_marks_the_focused_item() {
    let labels = vec!["shapes".to_owned(), "fields".to_owned()];
    let spans = breadcrumb_header(2, &labels, 4, Some(BreadcrumbBarFocus::add(4)));
    let texts = spans.iter().map(|span| span.text.as_str()).collect::<Vec<_>>();
    assert_eq!(
        texts,
        ["Everything", " > ", "… 2 earlier", " > ", "shapes", " > ", "fields", " > ", "[+Add Breadcrumb]"]
    );
    assert!(spans[8].reversed);
    let focused = breadcrumb_header(0, &labels, 2, Some(BreadcrumbBarFocus::first()));
    assert_eq!(focused[2].text, "[shapes]");
    assert!(!focused[4].reversed);
}

#[test]
fn breadcrumb_bar_keys_move_and_remove() {
    let focus = BreadcrumbBarFocus::add(2);
    assert_eq!(breadcrumb_bar_key_action(key(KeyCodeInput::Left), focus, 2), BarAction::Focus(BreadcrumbBarFocus { position: 1 }));
    assert_eq!(breadcrumb_bar_key_action(key(KeyCodeInput::Right), focus, 2), BarAction::Focus(BreadcrumbBarFocus { position: 2 }));
    assert_eq!(breadcrumb_bar_key_action(key(KeyCodeInput::Delete), focus, 2), BarAction::Ignore);
    assert_eq!(breadcrumb_bar_key_action(key(KeyCodeInput::Backspace), BreadcrumbBarFocus::first(), 2), BarAction::Remove(0));
    assert_eq!(breadcrumb_bar_key_action(key(KeyCodeInput::Char(' ')), focus, 2), BarAction::Activate);
    assert_eq!(breadcrumb_bar_key_action(key(KeyCodeInput::Down), focus, 2), BarAction::LeaveToFirstRow);
}

fn vec_window(len: usize, max_cards: usize, max_rows: usize) -> (CardWindow, CardAddress) {
    let root = ValueAddress::root(SlotId::new(0));
    let children = (0..len.min(max_rows + 1))
        .map(|index| relationship_row(root.clone().child(ValuePathSegment::Index(index)), "usize", Some(&index.to_string())))
        .collect::<Vec<_>>();
    let mut cards = vec![CardSnapshot::observe(root.clone(), "Vec<usize>", RootRevision::default(), Some(children), None, vec![], max_rows)];
    for index in 0..len.min(max_cards.saturating_sub(1)) {
        let element = root.clone().child(ValuePathSegment::Index(index));
        cards.push(CardSnapshot::observe(element, "usize", RootRevision::default(), None, Some(&index.to_string()), vec![], max_rows));
    }
    let has_after = len + 1 > max_cards;
    (CardWindow::from_cards(cards, 0, false, has_after), CardAddress::Value(root))
}

#[test]
fn vertical_rendering_keeps_the_selected_card_in_the_visible_capacity() {
    let (window, _) = vec_window(32, 8, 1);
    let selected = window.cards().last().unwrap().address().clone();
    let renderer = CardWindowRenderer::new(&window, &selected, None, CardLayoutAxis::Vertical, false, 7);

    let (shown, _) = renderer.visible_cards(20);
    assert!(shown.contains(&(window.cards().len() - 1)));
    assert!(!shown.contains(&0));
    assert_eq!(card_title(&window.cards()[shown[0]]), "slot 0[5] [projection]");
}

#[test]
fn focused_and_vertical_rendering_do_not_request_additional_cards() {
    let (window, root) = vec_window(1_000_000, 8, 3);
    let renderer = CardWindowRenderer::new(&window, &root, None, CardLayoutAxis::Vertical, true, 10);

    assert_eq!(renderer.visible_cards(20), (vec![0], 0));
    assert_eq!(card_title(&window.cards()[0]), "slot 0 [owned]");
    assert_eq!(window.cards().len(), 8);
    assert!(window.has_after());
    assert!(!renderer.show_card_scrollbar(20));
}

#[test]
fn selected_rows_scroll_inside_the_card_and_both_scrollbars_are_visible() {
    let (window, root) = vec_window(9, 1, 10);
    let selected_row = CardRowKey::Element(8);
    let renderer = CardWindowRenderer::new(&window, &root, Some(&selected_row), CardLayoutAxis::Horizontal, false, 38);

    assert!(renderer.show_card_scrollbar(12), "a continuation window renders the card-axis scrollbar");
    let plan = renderer.card_lines(&window.cards()[0]);
    assert_eq!(plan.lines.len(), 19);
    let viewport = 7;
    let offset = scroll_offset(plan.lines.len(), viewport, plan.focused_line);
    assert_eq!(offset, 12);
    assert_eq!(marker_row(true, plan.selected_line, offset, viewport), Some(5));
    assert_eq!(
        plan.lines[plan.selected_line.unwrap()],
        CardLine::TypedRow { row: 9, selected: true, accent: Tone::Blue }
    );
    let bar = row_scrollbar(true, plan.lines.len(), viewport, offset).expect("overflowing selected-card rows render a vertical scrollbar");
    assert_eq!(bar.position + 1, bar.content_length, "a bottom viewport must place the vertical thumb at the bottom of its track");
}

#[test]
fn card_window_rendering_uses_only_bounded_snapshots_and_semantic_rows() {
    let root = ValueAddress::root(SlotId::new(0));
    let age = root.clone().child(ValuePathSegment::Field("age".to_owned()));
    let name = root.clone().child(ValuePathSegment::Field("name".to_owned()));
    let rows = vec![
        relationship_row(age.clone(), "usize", Some("42")),
        relationship_row(name.clone(), "String", Some("Ada")),
    ];
    let cards = vec![
        CardSnapshot::observe(root.clone(), "RenderThing", RootRevision::default(), Some(rows), None, vec![], 2),
        CardSnapshot::observe(age, "usize", RootRevision::default(), None, Some("42"), vec![], 2),
        CardSnapshot::observe(name, "String", RootRevision::default(), None, Some("Ada"), vec![], 2),
    ];
    let window = CardWindow::from_cards(cards, 0, false, false);
    let selected = CardAddress::Value(root);
    let selected_row = CardRowKey::Field("name".to_owned());
    let renderer = CardWindowRenderer::new(&window, &selected, Some(&selected_row), CardLayoutAxis::Horizontal, false, 30);

    assert_eq!(renderer.visible_cards(90), (vec![0, 1, 2], 0));
    assert_eq!(card_title(&window.cards()[0]), "slot 0 [owned]");
    assert_eq!(card_title(&window.cards()[1]), "slot 0.age [projection]");
    assert_eq!(card_title(&window.cards()[2]), "slot 0.name [projection]");
    let plan = renderer.card_lines(&window.cards()[0]);
    assert_eq!(
        plan.lines,
        [
            CardLine::Row { row: 0, selected: false, accent: Tone::White },
            CardLine::TypedRow { row: 1, selected: false, accent: Tone::Blue },
            CardLine::ValueDisplay { row: 1, selected: false, tone: Tone::Blue },
            CardLine::TypedRow { row: 2, selected: true, accent: Tone::Green },
            CardLine::ValueDisplay { row: 2, selected: true, tone: Tone::Green },
        ]
    );
    assert_eq!(plan.selected_line, Some(3));
    let age_row = &window.cards()[0].rows()[1];
    let (text, look) = content_look(age_row, Tone::Blue);
    assert_eq!(text, "slot 0.age");
    assert_eq!(look, Look { tone: Tone::Blue, bold: true, dim: false });
    assert_eq!(window.cards().len(), 3);
}
