use ui_ratatui::browser::picker_choices::{
    field_choices, filter_field_choices, require_choices, shape_choices, value_choices,
    value_picker_header,
};
use ui_ratatui::browser::value_picker::{
    sort_rows_by_label, FieldValuePicker, ProducerChoice, ValueCandidate, ValuePickerChoice,
};
use ui_ratatui::browser::variant_picker::VariantPicker;
use ui_ratatui::explorer::breadcrumb::{ProjectedField, ValueFilterOperator};
use ui_ratatui::explorer::breadcrumb_context::{ContextCollector, ValueCollector};
use ui_ratatui::explorer::ids::SlotId;
use ui_ratatui::explorer::value_address::ValueAddress;

fn producer(function: u64, input: &str, description: &str, default: bool, arbitrary: bool, constructor: bool) -> ProducerChoice {
    ProducerChoice {
        function,
        input_shape: input.to_owned(),
        description: description.to_owned(),
        has_default: default,
        has_arbitrary: arbitrary,
        is_arbitrary_constructor: constructor,
    }
}

fn labels(picker: &FieldValuePicker) -> Vec<String> {
    picker.rows().iter().map(|row| row.label().to_owned()).collect()
}

#[test]
fn string_field_pickers_default_to_creating_a_new_owned_value() {
    let mut picker = FieldValuePicker::new(SlotId::new(4), 1, "filename", "String", "String", true, vec![]);
    picker.replace_window(Vec::new(), false, false);

    assert_eq!(picker.selected_index(), 0);
    assert_eq!(picker.selected().unwrap().label(), "+ create new owned String");
    assert!(matches!(
        picker.selected().unwrap().choice(),
        ValuePickerChoice::CreateNewOwned { shape } if shape == "String"
    ));
}

#[test]
fn value_picker_lists_candidates_then_producers_in_groups() {
    let mut picker = FieldValuePicker::new(
        SlotId::new(2),
        1,
        "organization",
        "Org",
        "Org",
        false,
        vec![
            producer(10, "Url", "parse url", true, true, false),
            producer(11, "Name", "by name", false, false, false),
            producer(12, "Bytes", "arbitrary", true, false, true),
        ],
    );
    assert_eq!(
        labels(&picker),
        [
            "+ invoke default Url for Org",
            "+ create new owned Org",
            "+ create Name for Org via by name",
            "+ create Url for Org via parse url",
            "+ invoke default Bytes for Org",
            "+ create Bytes for Org via arbitrary",
            "+ invoke arbitrary Url for Org",
        ]
    );
    picker.replace_window(
        vec![
            ValueCandidate::new("slot 3 Org acme", ValueAddress::root(SlotId::new(3))),
            ValueCandidate::new("slot 4 Org contoso", ValueAddress::root(SlotId::new(4))),
        ],
        false,
        true,
    );
    assert!(picker.has_after());
    assert!(!picker.has_before());
    assert_eq!(labels(&picker)[0], "slot 3 Org acme");
    picker.move_next();
    assert_eq!(picker.selected_index(), 1);
    picker.replace_window(
        vec![
            ValueCandidate::new("slot 4 Org contoso", ValueAddress::root(SlotId::new(4))),
        ],
        true,
        false,
    );
    assert_eq!(
        picker.selected().unwrap().choice(),
        &ValuePickerChoice::Candidate {
            address: ValueAddress::root(SlotId::new(4))
        }
    );
    for character in "CONTOSO".chars() {
        picker.push(character);
    }
    assert_eq!(labels(&picker), ["slot 4 Org contoso"]);
    assert_eq!(picker.query(), "CONTOSO");
    picker.pop();
    assert_eq!(picker.query(), "CONTOS");
    picker.move_previous();
    assert_eq!(picker.selected_index(), 0);
    assert_eq!(picker.destination(), SlotId::new(2));
    assert_eq!(picker.field(), 1);
    assert_eq!(picker.field_name(), "organization");
    assert_eq!(picker.target_shape(), "Org");
}

#[test]
fn picker_rows_sort_stably_by_label() {
    let picker = FieldValuePicker::new(
        SlotId::new(2),
        0,
        "x",
        "T",
        "T",
        false,
        vec![
            producer(1, "B", "b", false, false, false),
            producer(2, "A", "z", false, false, false),
            producer(3, "A", "a", false, false, false),
        ],
    );
    let sorted = sort_rows_by_label(&picker.rows().to_vec());
    assert_eq!(sorted.len(), picker.rows().len());
    assert_eq!(
        labels(&picker),
        [
            "+ create new owned T",
            "+ create A for T via a",
            "+ create A for T via z",
            "+ create B for T via b",
        ]
    );
}

#[test]
fn variant_picker_narrows_by_case_insensitive_substring() {
    assert!(VariantPicker::new(SlotId::new(1), "String", None).is_none());
    let mut picker = VariantPicker::new(
        SlotId::new(1),
        "Color",
        Some(vec!["Red".to_owned(), "Green".to_owned(), "Blue".to_owned()]),
    )
    .unwrap();
    assert_eq!(picker.selected_variant(), Some(0));
    picker.move_next();
    picker.move_next();
    picker.move_next();
    assert_eq!(picker.selected_variant(), Some(2));
    picker.push('E');
    assert_eq!(picker.matches(), [(0, "Red".to_owned()), (1, "Green".to_owned()), (2, "Blue".to_owned())]);
    picker.push('e');
    assert_eq!(picker.matches(), [(1, "Green".to_owned())]);
    assert_eq!(picker.selected_variant(), Some(1));
    assert_eq!(picker.selected_index(), 0);
    picker.push('z');
    assert_eq!(picker.selected_variant(), None);
    picker.pop();
    picker.pop();
    assert_eq!(picker.query(), "E");
    assert_eq!(picker.slot(), SlotId::new(1));
    assert_eq!(picker.shape(), "Color");
}

fn context() -> ui_ratatui::explorer::breadcrumb_context::BreadcrumbContextSnapshot {
    let mut collector = ContextCollector::start(16, 16).unwrap();
    collector.observe(
        "Thing",
        &vec![
            ("name".to_owned(), "String".to_owned()),
            ("age".to_owned(), "usize".to_owned()),
        ],
    );
    collector.observe("Other", &vec![("name".to_owned(), "Cow".to_owned())]);
    collector.finish(2, true)
}

#[test]
fn shape_choices_merge_met_and_included_shapes() {
    let snapshot = context();
    let choices = shape_choices(&snapshot, &vec!["Zed".to_owned(), "Thing".to_owned()]);
    assert_eq!(choices, ["Other", "Thing", "Zed"]);
}

#[test]
fn field_choices_label_met_fields_and_keep_included_ones() {
    let snapshot = context();
    let (choices, initial) = field_choices(
        &snapshot,
        &vec![ProjectedField::new("Thing", "age"), ProjectedField::new("Zed", "id")],
    );
    let labels = choices.iter().map(|choice| choice.label.clone()).collect::<Vec<_>>();
    assert_eq!(
        labels,
        [
            "Other.name (Cow)",
            "Thing.age (usize)",
            "Thing.name (String)",
            "Zed.id",
        ]
    );
    assert_eq!(initial, ["Thing.age (usize)", "Zed.id"]);
    assert_eq!(require_choices(choices.len()), Ok(()));
    assert_eq!(
        require_choices(0),
        Err("the breadcrumb prefix has no matching reflected choices".to_owned())
    );
}

#[test]
fn filter_field_choices_offer_three_operators_per_field() {
    let snapshot = context();
    let choices = filter_field_choices(&snapshot).ok().unwrap();
    assert_eq!(choices.len(), 9);
    assert_eq!(choices[0].label, "filter Other.name (Cow) equals …");
    assert_eq!(choices[1].label, "filter Other.name (Cow) contains …");
    assert_eq!(choices[2].label, "filter Other.name (Cow) does not equal …");
    assert_eq!(choices[2].operator, ValueFilterOperator::NotEquals);
    assert_eq!(choices[0].field_shape, "Cow");
    assert_eq!(choices[0].field_name, "name");
    let empty = ContextCollector::start(1, 1).unwrap().finish(0, true);
    assert_eq!(
        filter_field_choices(&empty).err(),
        Some("the breadcrumb prefix has no reflected fields".to_owned())
    );
}

#[test]
fn value_choices_add_the_current_value_in_order() {
    let mut collector = ValueCollector::start("String", "name", 8, 8).unwrap();
    collector.consider(Some("name"), Some("String"), Some("Grace"));
    collector.consider(Some("name"), Some("String"), Some("Ada"));
    let values = collector.finish(2, true);
    assert_eq!(value_choices(&values, Some("Bob")).unwrap(), ["Ada", "Bob", "Grace"]);
    assert_eq!(value_choices(&values, Some("Ada")).unwrap(), ["Ada", "Grace"]);
    let none = ValueCollector::start("String", "name", 8, 8).unwrap().finish(0, true);
    assert_eq!(
        value_choices(&none, None),
        Err("the breadcrumb prefix has no scalar values for this field".to_owned())
    );
    assert_eq!(value_choices(&none, Some("x")).unwrap(), ["x"]);
    assert_eq!(
        value_picker_header("displayName", ValueFilterOperator::NotEquals, "String"),
        "Filter displayName does not equal (String)"
    );
}

#[test]
fn cow_field_picker_offers_generic_default_manual_and_arbitrary_producers() {
    let picker = FieldValuePicker::new(
        SlotId::new(4),
        0,
        "org_url",
        "Cow<AzureDevOpsOrganizationUrl>",
        "AzureDevOpsOrganizationUrl",
        false,
        vec![producer(
            1,
            "DefaultAzureDevOpsOrganizationUrlRequest",
            "default organization url",
            true,
            true,
            false,
        )],
    );
    let labels = labels(&picker);

    assert!(labels
        .iter()
        .any(|label| label.contains("invoke default DefaultAzureDevOpsOrganizationUrlRequest")));
    assert!(labels
        .iter()
        .any(|label| label.contains("create DefaultAzureDevOpsOrganizationUrlRequest")));
    assert!(labels
        .iter()
        .any(|label| label.contains("invoke arbitrary DefaultAzureDevOpsOrganizationUrlRequest")));
    assert_eq!(
        labels.first().map(String::as_str),
        Some("+ invoke default DefaultAzureDevOpsOrganizationUrlRequest for AzureDevOpsOrganizationUrl"),
        "a domain default producer should outrank ArbitraryBytes-based construction"
    );
    assert!(matches!(
        picker.selected().unwrap().choice(),
        ValuePickerChoice::InvokeDefaultProducer { .. }
    ));
}
