//! The choices the nested pickers offer for breadcrumb operations, drawn
//! from the bounded metadata of a query prefix: shapes, fields (with the
//! shape of their values), field filters and scalar values.
use vstd::prelude::*;
use crate::explorer::breadcrumb::{
    ProjectedField, ProjectedFieldView, ValueFilterOperator, fields_view,
};
use crate::explorer::breadcrumb_context::{
    BreadcrumbContextSnapshot, BreadcrumbContextValueSnapshot, ChoiceKey, insert_choice,
    insert_choice_at, keys_before, keys_of, locate_choice, sorted_keys,
};
use crate::explorer::breadcrumb_context::BreadcrumbContextField;
use crate::explorer::breadcrumb::strings_view;
use crate::text::{push_char, push_text, same_text, text_precedes};

verus! {

fn copy_texts(texts: &[String]) -> (copy: Vec<String>)
    ensures
        keys_of(copy@) == keys_of(texts@),
{
    let mut copy: Vec<String> = Vec::new();
    let mut i: usize = 0;
    while i < texts.len()
        invariant
            i <= texts@.len(),
            copy@.len() == i,
            forall|j: int| 0 <= j < i ==> #[trigger] copy@[j]@ == texts@[j]@,
        decreases texts.len() - i,
    {
        copy.push(texts[i].clone());
        i = i + 1;
    }
    assert(keys_of(copy@) =~= keys_of(texts@));
    copy
}

/// The shapes to offer for a shape filter: those met in the prefix and
/// those the filter already includes, each once, in order.
pub fn shape_choices(snapshot: &BreadcrumbContextSnapshot, initially_included: &Vec<String>) -> (choices: Vec<String>)
    ensures
        sorted_keys(keys_of(choices@)),
        keys_of(choices@).to_set() == snapshot@.shapes.to_set() + keys_of(initially_included@).to_set(),
{
    let mut choices = copy_texts(snapshot.shapes());
    let ghost base = snapshot@.shapes.to_set();
    let ghost included = keys_of(initially_included@);
    let mut i: usize = 0;
    while i < initially_included.len()
        invariant
            i <= initially_included@.len(),
            included == keys_of(initially_included@),
            sorted_keys(keys_of(choices@)),
            keys_of(choices@).to_set() == base + included.take(i as int).to_set(),
        decreases initially_included.len() - i,
    {
        let ghost before = keys_of(choices@).to_set();
        insert_choice(&mut choices, initially_included[i].clone());
        proof {
            assert(included.take(i + 1) =~= included.take(i as int).push(included[i as int]));
            included.take(i as int).lemma_push_to_set_commute(included[i as int]);
            assert(keys_of(choices@).to_set() =~= base + included.take(i + 1).to_set());
        }
        i = i + 1;
    }
    assert(included.take(initially_included@.len() as int) =~= included);
    choices
}

/// A field offered to a field picker with its label; ordered and
/// identified by owner shape and field name.
pub struct FieldChoice {
    pub field: ProjectedField,
    pub label: String,
}

impl ChoiceKey for FieldChoice {
    open spec fn choice_key(&self) -> Seq<Seq<char>> {
        seq![self.field.shape@, self.field.field@]
    }

    fn precedes(&self, other: &Self) -> (before: bool) {
        let ghost a = self.choice_key();
        let ghost b = other.choice_key();
        proof {
            reveal_with_fuel(keys_before, 3);
            assert(a.drop_first() =~= seq![a[1]]);
            assert(b.drop_first() =~= seq![b[1]]);
            assert(a.drop_first().drop_first() =~= Seq::<Seq<char>>::empty());
            assert(b.drop_first().drop_first() =~= Seq::<Seq<char>>::empty());
        }
        if self.field.shape != other.field.shape {
            return text_precedes(self.field.shape.as_str(), other.field.shape.as_str());
        }
        if self.field.field != other.field.field {
            return text_precedes(self.field.field.as_str(), other.field.field.as_str());
        }
        false
    }

    fn same_choice(&self, other: &Self) -> (same: bool) {
        let same = self.field.shape == other.field.shape && self.field.field == other.field.field;
        proof {
            let a = self.choice_key();
            let b = other.choice_key();
            if a == b {
                assert(a[0] == b[0] && a[1] == b[1]);
            }
            if same {
                assert(a =~= b);
            }
        }
        same
    }
}

/// The label of a field met in the prefix (its key is owner shape, field
/// name and field shape): "Shape.field (FieldShape)".
pub open spec fn context_label(key: Seq<Seq<char>>) -> Seq<char> {
    key[0] + seq!['.'] + key[1] + seq![' ', '('] + key[2] + seq![')']
}

/// Labels by (owner shape, field name) of the fields met, a later field
/// of the same name replacing an earlier one.
pub open spec fn met_field_labels(fields: Seq<Seq<Seq<char>>>) -> Map<Seq<Seq<char>>, Seq<char>>
    decreases fields.len(),
{
    if fields.len() == 0 {
        Map::empty()
    } else {
        met_field_labels(fields.drop_last()).insert(
            seq![fields.last()[0], fields.last()[1]],
            context_label(fields.last()),
        )
    }
}

/// `labels` with each included field not met added under "Shape.field".
pub open spec fn with_included(
    labels: Map<Seq<Seq<char>>, Seq<char>>,
    included: Seq<ProjectedFieldView>,
) -> Map<Seq<Seq<char>>, Seq<char>>
    decreases included.len(),
{
    if included.len() == 0 {
        labels
    } else {
        let before = with_included(labels, included.drop_last());
        let key = seq![included.last().shape, included.last().field];
        if before.dom().contains(key) {
            before
        } else {
            before.insert(key, included.last().shape + seq!['.'] + included.last().field)
        }
    }
}

pub open spec fn choice_labels(choices: Seq<FieldChoice>) -> Seq<Seq<char>> {
    choices.map_values(|c: FieldChoice| c.label@)
}

/// The choices agree with `labels`: the same keys, each with its label.
pub open spec fn agrees(choices: Seq<FieldChoice>, labels: Map<Seq<Seq<char>>, Seq<char>>) -> bool {
    &&& keys_of(choices).to_set() == labels.dom()
    &&& forall|i: int| 0 <= i < choices.len() ==> labels[#[trigger] keys_of(choices)[i]] == choice_labels(choices)[i]
}

/// The labels of the choices whose field is among `included`, in order.
pub open spec fn initial_labels(choices: Seq<FieldChoice>, included: Set<Seq<Seq<char>>>) -> Seq<Seq<char>>
    decreases choices.len(),
{
    if choices.len() == 0 {
        Seq::empty()
    } else {
        let rest = initial_labels(choices.drop_last(), included);
        if included.contains(choices.last().choice_key()) {
            rest.push(choices.last().label@)
        } else {
            rest
        }
    }
}

proof fn lemma_sorted_keys_distinct(keys: Seq<Seq<Seq<char>>>, i: int, j: int)
    requires
        sorted_keys(keys),
        0 <= i < keys.len(),
        0 <= j < keys.len(),
        i != j,
    ensures
        keys[i] != keys[j],
{
    crate::explorer::breadcrumb_context::lemma_keys_order(keys[i], keys[i]);
    crate::explorer::breadcrumb_context::lemma_keys_order(keys[j], keys[j]);
}

/// Records `choice`, replacing the label of an equal field.
fn put_choice(choices: &mut Vec<FieldChoice>, choice: FieldChoice, replace: bool, Ghost(labels): Ghost<Map<Seq<Seq<char>>, Seq<char>>>)
    requires
        sorted_keys(keys_of(old(choices)@)),
        agrees(old(choices)@, labels),
    ensures
        sorted_keys(keys_of(final(choices)@)),
        replace ==> agrees(final(choices)@, labels.insert(choice.choice_key(), choice.label@)),
        !replace ==> agrees(
            final(choices)@,
            if labels.dom().contains(choice.choice_key()) {
                labels
            } else {
                labels.insert(choice.choice_key(), choice.label@)
            },
        ),
{
    let ghost keys = keys_of(choices@);
    let ghost key = choice.choice_key();
    let ghost label = choice.label@;
    let (p, present) = locate_choice(choices, &choice);
    if present {
        if replace {
            let ghost old_choices = choices@;
            choices.set(p, choice);
            proof {
                assert(keys_of(choices@) =~= keys);
                assert(keys[p as int] == key);
                let grown = labels.insert(key, label);
                assert(keys_of(choices@).to_set() =~= grown.dom());
                assert forall|i: int| 0 <= i < choices@.len() implies grown[#[trigger] keys_of(choices@)[i]]
                    == choice_labels(choices@)[i] by {
                    if i != p {
                        lemma_sorted_keys_distinct(keys, i, p as int);
                        assert(choice_labels(choices@)[i] == choice_labels(old_choices)[i]);
                    }
                }
            }
        }
        return;
    }
    let ghost old_choices = choices@;
    insert_choice_at(choices, p, choice);
    proof {
        let grown = labels.insert(key, label);
        assert(!labels.dom().contains(key)) by {
            if labels.dom().contains(key) {
                assert(keys.to_set().contains(key));
            }
        }
        assert(keys_of(choices@) =~= keys.insert(p as int, key));
        assert(choice_labels(choices@) =~= choice_labels(old_choices).insert(p as int, label));
        assert forall|k: Seq<Seq<char>>| keys_of(choices@).to_set().contains(k) <==> grown.dom().contains(k) by {
            let now = keys_of(choices@);
            if now.contains(k) {
                let i = choose|i: int| 0 <= i < now.len() && now[i] == k;
                if i < p {
                    assert(keys[i] == k);
                    assert(keys.to_set().contains(k));
                } else if i > p {
                    assert(keys[i - 1] == k);
                    assert(keys.to_set().contains(k));
                }
            }
            if labels.dom().contains(k) {
                assert(keys.to_set().contains(k));
                let i = choose|i: int| 0 <= i < keys.len() && keys[i] == k;
                if i < p {
                    assert(now[i] == k);
                } else {
                    assert(now[i + 1] == k);
                }
            }
            if k == key {
                assert(now[p as int] == k);
            }
        }
        assert(keys_of(choices@).to_set() =~= grown.dom());
        assert forall|i: int| 0 <= i < choices@.len() implies grown[#[trigger] keys_of(choices@)[i]]
            == choice_labels(choices@)[i] by {
            let now = keys_of(choices@);
            if i < p {
                assert(now[i] == keys[i]);
                assert(keys[i] != key) by {
                    assert(keys.to_set().contains(keys[i]));
                }
            } else if i > p {
                assert(now[i] == keys[i - 1]);
                assert(keys[i - 1] != key) by {
                    assert(keys.to_set().contains(keys[i - 1]));
                }
            }
        }
    }
}

/// The keys of `fields`: owner shape and field name.
pub open spec fn included_keys(fields: Seq<ProjectedFieldView>) -> Set<Seq<Seq<char>>> {
    fields.map_values(|f: ProjectedFieldView| seq![f.shape, f.field]).to_set()
}

fn includes_field(included: &Vec<ProjectedField>, choice: &FieldChoice) -> (found: bool)
    ensures
        found == included_keys(fields_view(included@)).contains(choice.choice_key()),
{
    let ghost keys = fields_view(included@).map_values(|f: ProjectedFieldView| seq![f.shape, f.field]);
    let mut i: usize = 0;
    while i < included.len()
        invariant
            i <= included@.len(),
            keys == fields_view(included@).map_values(|f: ProjectedFieldView| seq![f.shape, f.field]),
            forall|j: int| 0 <= j < i ==> #[trigger] keys[j] != choice.choice_key(),
        decreases included.len() - i,
    {
        if same_text(included[i].shape.as_str(), choice.field.shape.as_str()) && same_text(
            included[i].field.as_str(),
            choice.field.field.as_str(),
        ) {
            assert(keys[i as int] =~= choice.choice_key());
            assert(keys.to_set().contains(keys[i as int]));
            return true;
        }
        proof {
            if keys[i as int] == choice.choice_key() {
                assert(keys[i as int][0] == choice.choice_key()[0]);
                assert(keys[i as int][1] == choice.choice_key()[1]);
            }
        }
        i = i + 1;
    }
    proof {
        if keys.to_set().contains(choice.choice_key()) {
            let j = choose|j: int| 0 <= j < keys.len() && keys[j] == choice.choice_key();
            assert(keys[j] != choice.choice_key());
        }
    }
    false
}

/// The fields to offer for a field projection, keyed by owner shape and
/// field name, each once, in order: those met in the prefix, labelled with
/// the shape of their value (the last one met for a name), and those the
/// projection already includes, labelled "Shape.field" when not met; with
/// the labels of the included ones, in order.
pub fn field_choices(snapshot: &BreadcrumbContextSnapshot, initially_included: &Vec<ProjectedField>) -> (result: (Vec<FieldChoice>, Vec<String>))
    ensures
        sorted_keys(keys_of(result.0@)),
        agrees(result.0@, with_included(met_field_labels(snapshot@.fields), fields_view(initially_included@))),
        strings_view(result.1@) == initial_labels(result.0@, included_keys(fields_view(initially_included@))),
{
    let met = snapshot.fields();
    let ghost met_keys = snapshot@.fields;
    let mut choices: Vec<FieldChoice> = Vec::new();
    assert(keys_of(choices@).to_set() =~= Map::<Seq<Seq<char>>, Seq<char>>::empty().dom());
    let mut i: usize = 0;
    while i < met.len()
        invariant
            keys_of(met@) == met_keys,
            i <= met@.len(),
            sorted_keys(keys_of(choices@)),
            agrees(choices@, met_field_labels(met_keys.take(i as int))),
        decreases met.len() - i,
    {
        assert(met_keys.take(i + 1).drop_last() =~= met_keys.take(i as int));
        assert(met_keys.take(i + 1).last() == met_keys[i as int]);
        let field = &met[i];
        let choice = FieldChoice { field: field.selection().duplicate(), label: field.label() };
        assert(choice.choice_key() =~= seq![met_keys[i as int][0], met_keys[i as int][1]]);
        assert(choice.label@ =~= context_label(met_keys[i as int]));
        put_choice(&mut choices, choice, true, Ghost(met_field_labels(met_keys.take(i as int))));
        i = i + 1;
    }
    assert(met_keys.take(met@.len() as int) =~= met_keys);
    let ghost labels = met_field_labels(met_keys);
    let ghost included = fields_view(initially_included@);
    let mut k: usize = 0;
    while k < initially_included.len()
        invariant
            k <= initially_included@.len(),
            included == fields_view(initially_included@),
            sorted_keys(keys_of(choices@)),
            agrees(choices@, with_included(labels, included.take(k as int))),
        decreases initially_included.len() - k,
    {
        assert(included.take(k + 1).drop_last() =~= included.take(k as int));
        assert(included.take(k + 1).last() == included[k as int]);
        let field = &initially_included[k];
        let choice = FieldChoice { field: field.duplicate(), label: field.label() };
        assert(choice.choice_key() =~= seq![included[k as int].shape, included[k as int].field]);
        put_choice(&mut choices, choice, false, Ghost(with_included(labels, included.take(k as int))));
        k = k + 1;
    }
    assert(included.take(initially_included@.len() as int) =~= included);
    let mut initial: Vec<String> = Vec::new();
    let mut j: usize = 0;
    while j < choices.len()
        invariant
            j <= choices@.len(),
            strings_view(initial@) == initial_labels(choices@.take(j as int), included_keys(fields_view(initially_included@))),
        decreases choices.len() - j,
    {
        assert(choices@.take(j + 1).drop_last() =~= choices@.take(j as int));
        assert(choices@.take(j + 1).last() == choices@[j as int]);
        if includes_field(initially_included, &choices[j]) {
            initial.push(choices[j].label.clone());
            assert(strings_view(initial@) =~= initial_labels(choices@.take(j as int), included_keys(fields_view(initially_included@))).push(choices@[j as int].label@));
        }
        j = j + 1;
    }
    assert(choices@.take(choices@.len() as int) =~= choices@);
    (choices, initial)
}

/// Refuses an empty list of choices: a picker needs something to offer.
pub fn require_choices(count: usize) -> (result: Result<(), String>)
    ensures
        count > 0 ==> result is Ok,
        count == 0 ==> (result matches Err(message) && message@
            == "the breadcrumb prefix has no matching reflected choices"@),
{
    if count == 0 {
        return Err(String::from_str("the breadcrumb prefix has no matching reflected choices"));
    }
    Ok(())
}

/// One field filter offered by the filter-field picker.
pub struct FilterFieldChoice {
    pub label: String,
    pub field_shape: String,
    pub field_name: String,
    pub operator: ValueFilterOperator,
}

pub struct FilterChoiceView {
    pub label: Seq<char>,
    pub field_shape: Seq<char>,
    pub field_name: Seq<char>,
    pub operator: ValueFilterOperator,
}

pub open spec fn filter_choices_view(choices: Seq<FilterFieldChoice>) -> Seq<FilterChoiceView> {
    choices.map_values(
        |c: FilterFieldChoice|
            FilterChoiceView {
                label: c.label@,
                field_shape: c.field_shape@,
                field_name: c.field_name@,
                operator: c.operator,
            },
    )
}

pub open spec fn operator_text(operator: ValueFilterOperator) -> Seq<char> {
    match operator {
        ValueFilterOperator::Equals => "equals"@,
        ValueFilterOperator::Contains => "contains"@,
        ValueFilterOperator::NotEquals => "does not equal"@,
    }
}

/// The filter of a field met in the prefix (key: owner shape, field name,
/// field shape) with `operator`.
pub open spec fn filter_choice(key: Seq<Seq<char>>, operator: ValueFilterOperator) -> FilterChoiceView {
    FilterChoiceView {
        label: "filter "@ + context_label(key) + seq![' '] + operator_text(operator) + " …"@,
        field_shape: key[2],
        field_name: key[1],
        operator,
    }
}

/// Every field met, each offered as an equality, a containment and an
/// inequality filter, in that order.
pub open spec fn filter_choices_spec(fields: Seq<Seq<Seq<char>>>) -> Seq<FilterChoiceView>
    decreases fields.len(),
{
    if fields.len() == 0 {
        Seq::empty()
    } else {
        filter_choices_spec(fields.drop_last()) + seq![
            filter_choice(fields.last(), ValueFilterOperator::Equals),
            filter_choice(fields.last(), ValueFilterOperator::Contains),
            filter_choice(fields.last(), ValueFilterOperator::NotEquals),
        ]
    }
}

fn filter_choice_of(field: &BreadcrumbContextField, operator: ValueFilterOperator) -> (choice: FilterFieldChoice)
    ensures
        filter_choices_view(seq![choice]) == seq![filter_choice(field.choice_key(), operator)],
{
    let mut label = String::from_str("filter ");
    let field_label = field.label();
    push_text(&mut label, field_label.as_str());
    push_char(&mut label, ' ');
    match operator {
        ValueFilterOperator::Equals => push_text(&mut label, "equals"),
        ValueFilterOperator::Contains => push_text(&mut label, "contains"),
        ValueFilterOperator::NotEquals => push_text(&mut label, "does not equal"),
    }
    push_text(&mut label, " …");
    let choice = FilterFieldChoice {
        label,
        field_shape: String::from_str(field.field_shape()),
        field_name: field.selection().field.clone(),
        operator,
    };
    let ghost key = field.choice_key();
    assert(key[0] == field@.selection.shape && key[1] == field@.selection.field && key[2] == field@.field_shape);
    assert(field_label@ =~= context_label(key));
    assert(choice.label@ =~= filter_choice(key, operator).label);
    assert(filter_choices_view(seq![choice])[0] == filter_choice(key, operator));
    assert(filter_choices_view(seq![choice]) =~= seq![filter_choice(field.choice_key(), operator)]);
    choice
}

/// The field filters to offer; refused when the prefix met no field.
pub fn filter_field_choices(snapshot: &BreadcrumbContextSnapshot) -> (result: Result<Vec<FilterFieldChoice>, String>)
    ensures
        snapshot@.fields.len() == 0 ==> (result matches Err(message) && message@
            == "the breadcrumb prefix has no reflected fields"@),
        snapshot@.fields.len() > 0 ==> (result matches Ok(choices) && filter_choices_view(choices@)
            == filter_choices_spec(snapshot@.fields)),
{
    let fields = snapshot.fields();
    let ghost keys = snapshot@.fields;
    let mut choices: Vec<FilterFieldChoice> = Vec::new();
    let mut i: usize = 0;
    while i < fields.len()
        invariant
            keys_of(fields@) == keys,
            i <= fields@.len(),
            filter_choices_view(choices@) == filter_choices_spec(keys.take(i as int)),
        decreases fields.len() - i,
    {
        assert(keys.take(i + 1).drop_last() =~= keys.take(i as int));
        assert(keys.take(i + 1).last() == fields@[i as int].choice_key());
        let ghost before = choices@;
        let equals = filter_choice_of(&fields[i], ValueFilterOperator::Equals);
        let contains = filter_choice_of(&fields[i], ValueFilterOperator::Contains);
        let differs = filter_choice_of(&fields[i], ValueFilterOperator::NotEquals);
        choices.push(equals);
        choices.push(contains);
        choices.push(differs);
        assert(filter_choices_view(choices@) =~= filter_choices_view(before) + filter_choices_view(
            seq![equals],
        ) + filter_choices_view(seq![contains]) + filter_choices_view(seq![differs]));
        i = i + 1;
    }
    assert(keys.take(fields@.len() as int) =~= keys);
    if choices.len() == 0 {
        assert(keys.len() == 0);
        return Err(String::from_str("the breadcrumb prefix has no reflected fields"));
    }
    Ok(choices)
}

/// The values to offer for a value filter: the scalar texts met, plus the
/// filter's current value when editing one, each once, in order; refused
/// when there is none.
pub fn value_choices(snapshot: &BreadcrumbContextValueSnapshot, initial_value: Option<&str>) -> (result: Result<
    Vec<String>,
    String,
>)
    ensures
        ({
            let offered = match initial_value {
                Some(initial) => snapshot@.values.to_set().insert(seq![initial@]),
                None => snapshot@.values.to_set(),
            };
            &&& offered.len() == 0 ==> (result matches Err(message) && message@
                == "the breadcrumb prefix has no scalar values for this field"@)
            &&& offered.len() > 0 ==> (result matches Ok(values) && sorted_keys(keys_of(values@))
                && keys_of(values@).to_set() == offered)
        }),
{
    let mut values = copy_texts(snapshot.values());
    match initial_value {
        Some(initial) => insert_choice(&mut values, String::from_str(initial)),
        None => {},
    }
    proof {
        keys_of(values@).lemma_cardinality_of_set();
        if keys_of(values@).len() > 0 {
            assert(keys_of(values@).to_set().contains(keys_of(values@)[0]));
        }
    }
    if values.len() == 0 {
        assert(keys_of(values@) =~= Seq::<Seq<Seq<char>>>::empty());
        assert(keys_of(values@).to_set() =~= Set::<Seq<Seq<char>>>::empty());
        return Err(String::from_str("the breadcrumb prefix has no scalar values for this field"));
    }
    Ok(values)
}

/// The header of the value picker: "Filter name operator (Shape)".
pub fn value_picker_header(field_name: &str, operator: ValueFilterOperator, field_shape: &str) -> (header: String)
    ensures
        header@ == "Filter "@ + field_name@ + seq![' '] + match operator {
            ValueFilterOperator::Equals => "equals"@,
            ValueFilterOperator::NotEquals => "does not equal"@,
            ValueFilterOperator::Contains => "contains"@,
        } + " ("@ + field_shape@ + ")"@,
{
    let mut header = String::from_str("Filter ");
    push_text(&mut header, field_name);
    push_char(&mut header, ' ');
    match operator {
        ValueFilterOperator::Equals => push_text(&mut header, "equals"),
        ValueFilterOperator::NotEquals => push_text(&mut header, "does not equal"),
        ValueFilterOperator::Contains => push_text(&mut header, "contains"),
    }
    push_text(&mut header, " (");
    push_text(&mut header, field_shape);
    push_text(&mut header, ")");
    header
}

} // verus!
