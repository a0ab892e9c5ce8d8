//! The menu of breadcrumb operations offered for the current selection and
//! query: add a new filter or projection, or reopen an existing operation
//! for editing.
use vstd::prelude::*;
use crate::explorer::breadcrumb::{
    copy_fields, copy_strings, fields_view, mode_label, strings_view, Breadcrumb,
    BreadcrumbView, ProjectFieldsMode, ProjectedField, ProjectedFieldView, ValueFilterOperator,
};
use crate::explorer::value_address::{address_text, AddressView, ValueAddress, ValuePathSegment};
use crate::browser::link_action_picker::{next_selection, previous_selection};
use crate::text::{decimal, push_decimal};

verus! {

#[derive(Clone, Debug, PartialEq, Eq)]
pub enum BreadcrumbPickerChoice {
    Add(Breadcrumb),
    PromptValue {
        edit_index: Option<usize>,
        initial_value: Option<String>,
        field_shape: String,
        field_name: String,
        operator: ValueFilterOperator,
    },
    PickShapes { edit_index: Option<usize>, initially_included: Vec<String> },
    PickFields {
        edit_index: Option<usize>,
        mode: ProjectFieldsMode,
        initially_included: Vec<ProjectedField>,
    },
}

pub enum ChoiceView {
    Add(BreadcrumbView),
    PromptValue {
        edit_index: Option<usize>,
        initial_value: Option<Seq<char>>,
        field_shape: Seq<char>,
        field_name: Seq<char>,
        operator: ValueFilterOperator,
    },
    PickShapes { edit_index: Option<usize>, initially_included: Seq<Seq<char>> },
    PickFields {
        edit_index: Option<usize>,
        mode: ProjectFieldsMode,
        initially_included: Seq<ProjectedFieldView>,
    },
}

impl View for BreadcrumbPickerChoice {
    type V = ChoiceView;

    open spec fn view(&self) -> ChoiceView {
        match self {
            BreadcrumbPickerChoice::Add(breadcrumb) => ChoiceView::Add(breadcrumb@),
            BreadcrumbPickerChoice::PromptValue {
                edit_index,
                initial_value,
                field_shape,
                field_name,
                operator,
            } => ChoiceView::PromptValue {
                edit_index: *edit_index,
                initial_value: match initial_value {
                    Some(v) => Some(v@),
                    None => None,
                },
                field_shape: field_shape@,
                field_name: field_name@,
                operator: *operator,
            },
            BreadcrumbPickerChoice::PickShapes { edit_index, initially_included } =>
                ChoiceView::PickShapes {
                edit_index: *edit_index,
                initially_included: strings_view(initially_included@),
            },
            BreadcrumbPickerChoice::PickFields { edit_index, mode, initially_included } =>
                ChoiceView::PickFields {
                edit_index: *edit_index,
                mode: *mode,
                initially_included: fields_view(initially_included@),
            },
        }
    }
}

pub struct PickerRowView {
    pub label: Seq<char>,
    pub choice: ChoiceView,
}

#[derive(Clone, Debug, PartialEq, Eq)]
pub struct BreadcrumbPickerRow {
    label: String,
    choice: BreadcrumbPickerChoice,
}

impl View for BreadcrumbPickerRow {
    type V = PickerRowView;

    closed spec fn view(&self) -> PickerRowView {
        PickerRowView { label: self.label@, choice: self.choice@ }
    }
}

impl BreadcrumbPickerRow {
    pub fn label(&self) -> (label: &str)
        ensures
            label@ == self@.label,
    {
        self.label.as_str()
    }

    pub fn choice(&self) -> (choice: &BreadcrumbPickerChoice)
        ensures
            choice@ == self@.choice,
    {
        &self.choice
    }
}

pub open spec fn picker_rows_view(rows: Seq<BreadcrumbPickerRow>) -> Seq<PickerRowView> {
    rows.map_values(|row: BreadcrumbPickerRow| row@)
}

pub open spec fn breadcrumbs_view(breadcrumbs: Seq<Breadcrumb>) -> Seq<BreadcrumbView> {
    breadcrumbs.map_values(|b: Breadcrumb| b@)
}

pub open spec fn filter_shapes_row() -> PickerRowView {
    PickerRowView {
        label: "filter shapes…"@,
        choice: ChoiceView::PickShapes { edit_index: None, initially_included: Seq::empty() },
    }
}

pub open spec fn value_filter_row(
    field_name: Seq<char>,
    shape: Seq<char>,
    wording: Seq<char>,
    operator: ValueFilterOperator,
) -> PickerRowView {
    PickerRowView {
        label: "filter "@ + field_name + " "@ + wording + " …"@,
        choice: ChoiceView::PromptValue {
            edit_index: None,
            initial_value: None,
            field_shape: shape,
            field_name,
            operator,
        },
    }
}

/// Rows offered for the selected value: value filters when it is a named
/// field, then a projection from its address.
pub open spec fn selection_rows(address: AddressView, shape: Seq<char>) -> Seq<PickerRowView> {
    let filters = if address.path.len() > 0 && address.path.last() is Field {
        let name = address.path.last()->Field_0;
        seq![
            value_filter_row(name, shape, "equals"@, ValueFilterOperator::Equals),
            value_filter_row(name, shape, "contains"@, ValueFilterOperator::Contains),
            value_filter_row(name, shape, "does not equal"@, ValueFilterOperator::NotEquals),
        ]
    } else {
        Seq::empty()
    };
    filters.push(
        PickerRowView {
            label: "project from "@ + address_text(address),
            choice: ChoiceView::Add(
                BreadcrumbView::Projection { root_slot_id: address.root, path: address.path },
            ),
        },
    )
}

pub open spec fn edit_prefix(index: nat) -> Seq<char> {
    "edit breadcrumb "@ + decimal(index + 1) + ": "@
}

/// The edit row an existing operation at `index` reopens as, if any.
pub open spec fn edit_row(breadcrumb: BreadcrumbView, index: nat) -> Seq<PickerRowView> {
    match breadcrumb {
        BreadcrumbView::ShapeFilter { included_shapes } => seq![
            PickerRowView {
                label: edit_prefix(index) + "filter shapes"@,
                choice: ChoiceView::PickShapes {
                    edit_index: Some(index as usize),
                    initially_included: included_shapes,
                },
            },
        ],
        BreadcrumbView::ProjectFields { mode, included_fields } => seq![
            PickerRowView {
                label: edit_prefix(index) + mode_label(mode),
                choice: ChoiceView::PickFields {
                    edit_index: Some(index as usize),
                    mode,
                    initially_included: included_fields,
                },
            },
        ],
        BreadcrumbView::ValueFilter { field_shape, field_name, operator, value } => seq![
            PickerRowView {
                label: edit_prefix(index) + "filter "@ + field_name,
                choice: ChoiceView::PromptValue {
                    edit_index: Some(index as usize),
                    initial_value: Some(value),
                    field_shape,
                    field_name,
                    operator,
                },
            },
        ],
        _ => Seq::empty(),
    }
}

/// Edit rows of every editable operation, in query order.
pub open spec fn edit_rows(breadcrumbs: Seq<BreadcrumbView>) -> Seq<PickerRowView>
    decreases breadcrumbs.len(),
{
    if breadcrumbs.len() == 0 {
        Seq::empty()
    } else {
        edit_rows(breadcrumbs.drop_last()) + edit_row(
            breadcrumbs.last(),
            (breadcrumbs.len() - 1) as nat,
        )
    }
}

/// Rows offered in every context, after the edit rows.
pub open spec fn closing_rows() -> Seq<PickerRowView> {
    seq![
        PickerRowView {
            label: "pop to parents"@,
            choice: ChoiceView::Add(BreadcrumbView::Pop),
        },
        PickerRowView {
            label: mode_label(ProjectFieldsMode::Extend),
            choice: ChoiceView::PickFields {
                edit_index: None,
                mode: ProjectFieldsMode::Extend,
                initially_included: Seq::empty(),
            },
        },
        PickerRowView {
            label: mode_label(ProjectFieldsMode::Project),
            choice: ChoiceView::PickFields {
                edit_index: None,
                mode: ProjectFieldsMode::Project,
                initially_included: Seq::empty(),
            },
        },
        PickerRowView {
            label: "roots only"@,
            choice: ChoiceView::Add(
                BreadcrumbView::AddressKindFilter { include_roots: true, include_descendants: false },
            ),
        },
        PickerRowView {
            label: "descendants only"@,
            choice: ChoiceView::Add(
                BreadcrumbView::AddressKindFilter { include_roots: false, include_descendants: true },
            ),
        },
    ]
}

/// All rows of the picker, in menu order.
pub open spec fn picker_rows(
    selected: Option<(AddressView, Seq<char>)>,
    breadcrumbs: Seq<BreadcrumbView>,
) -> Seq<PickerRowView> {
    seq![filter_shapes_row()] + match selected {
        Some((address, shape)) => selection_rows(address, shape),
        None => Seq::empty(),
    } + edit_rows(breadcrumbs) + closing_rows()
}

fn row(label: String, choice: BreadcrumbPickerChoice) -> (row: BreadcrumbPickerRow)
    ensures
        row@ == (PickerRowView { label: label@, choice: choice@ }),
{
    BreadcrumbPickerRow { label, choice }
}

fn push_row(rows: &mut Vec<BreadcrumbPickerRow>, label: String, choice: BreadcrumbPickerChoice)
    ensures
        picker_rows_view(final(rows)@) == picker_rows_view(old(rows)@).push(
            PickerRowView { label: label@, choice: choice@ },
        ),
{
    let ghost before = rows@;
    rows.push(row(label, choice));
    assert(picker_rows_view(rows@) =~= picker_rows_view(before).push(
        PickerRowView { label: label@, choice: choice@ },
    ));
}

fn edit_label(index: usize, tail: &str) -> (label: String)
    requires
        index < usize::MAX,
    ensures
        label@ == edit_prefix(index as nat) + tail@,
{
    let mut label = String::from_str("edit breadcrumb ");
    push_decimal(&mut label, (index + 1) as u64);
    label.append(": ");
    label.append(tail);
    label
}

fn push_edit_row(rows: &mut Vec<BreadcrumbPickerRow>, breadcrumb: &Breadcrumb, index: usize)
    requires
        index < usize::MAX,
    ensures
        picker_rows_view(final(rows)@) == picker_rows_view(old(rows)@) + edit_row(
            breadcrumb@,
            index as nat,
        ),
{
    let ghost before = picker_rows_view(rows@);
    match breadcrumb {
        Breadcrumb::ShapeFilter { included_shapes } => {
            push_row(
                rows,
                edit_label(index, "filter shapes"),
                BreadcrumbPickerChoice::PickShapes {
                    edit_index: Some(index),
                    initially_included: copy_strings(included_shapes),
                },
            );
            assert(picker_rows_view(rows@) =~= before + edit_row(breadcrumb@, index as nat));
        },
        Breadcrumb::ProjectFields { mode, included_fields } => {
            push_row(
                rows,
                edit_label(index, mode.label()),
                BreadcrumbPickerChoice::PickFields {
                    edit_index: Some(index),
                    mode: *mode,
                    initially_included: copy_fields(included_fields),
                },
            );
            assert(picker_rows_view(rows@) =~= before + edit_row(breadcrumb@, index as nat));
        },
        Breadcrumb::ValueFilter { field_shape, field_name, operator, value } => {
            let mut tail = String::from_str("filter ");
            tail.append(field_name.as_str());
            push_row(
                rows,
                edit_label(index, tail.as_str()),
                BreadcrumbPickerChoice::PromptValue {
                    edit_index: Some(index),
                    initial_value: Some(value.clone()),
                    field_shape: field_shape.clone(),
                    field_name: field_name.clone(),
                    operator: *operator,
                },
            );
            assert(edit_prefix(index as nat) + ("filter "@ + field_name@) =~= edit_prefix(
                index as nat,
            ) + "filter "@ + field_name@);
            assert(picker_rows_view(rows@) =~= before + edit_row(breadcrumb@, index as nat));
        },
        _ => {
            assert(before + edit_row(breadcrumb@, index as nat) =~= before);
        },
    }
}

fn value_filter_label(field_name: &str, wording: &str) -> (label: String)
    ensures
        label@ == "filter "@ + field_name@ + " "@ + wording@ + " …"@,
{
    let mut label = String::from_str("filter ");
    label.append(field_name);
    label.append(" ");
    label.append(wording);
    label.append(" …");
    label
}

pub struct BreadcrumbPicker {
    rows: Vec<BreadcrumbPickerRow>,
    selected: usize,
}

impl BreadcrumbPicker {
    pub closed spec fn rows_spec(&self) -> Seq<PickerRowView> {
        picker_rows_view(self.rows@)
    }

    pub closed spec fn selection(&self) -> nat {
        self.selected as nat
    }

    /// The menu for the selected value (its address and shape name), if
    /// any, and the current query `breadcrumbs`. The first row is selected.
    pub fn new(selected: Option<(&ValueAddress, &str)>, breadcrumbs: &[Breadcrumb]) -> (picker:
        BreadcrumbPicker)
        ensures
            picker.rows_spec() == picker_rows(
                match selected {
                    Some((address, shape)) => Some((address@, shape@)),
                    None => None,
                },
                breadcrumbs_view(breadcrumbs@),
            ),
            picker.selection() == 0,
    {
        let mut rows: Vec<BreadcrumbPickerRow> = Vec::new();
        push_row(
            &mut rows,
            String::from_str("filter shapes…"),
            BreadcrumbPickerChoice::PickShapes { edit_index: None, initially_included: Vec::new() },
        );
        proof {
            assert(strings_view(Seq::<String>::empty()) =~= Seq::<Seq<char>>::empty());
            assert(picker_rows_view(rows@) =~= seq![filter_shapes_row()]);
        }
        let ghost selected_view = match selected {
            Some((address, shape)) => Some((address@, shape@)),
            None => None::<(AddressView, Seq<char>)>,
        };
        if let Some((address, shape)) = selected {
            let ghost before = picker_rows_view(rows@);
            let segments = address.path().segments();
            let n = segments.len();
            let mut filters_pushed = false;
            if n > 0 {
                if let ValuePathSegment::Field(field_name) = &segments[n - 1] {
                    assert(address@.path.last() == segments@[n - 1]@);
                    push_row(
                        &mut rows,
                        value_filter_label(field_name.as_str(), "equals"),
                        BreadcrumbPickerChoice::PromptValue {
                            edit_index: None,
                            initial_value: None,
                            field_shape: String::from_str(shape),
                            field_name: field_name.clone(),
                            operator: ValueFilterOperator::Equals,
                        },
                    );
                    push_row(
                        &mut rows,
                        value_filter_label(field_name.as_str(), "contains"),
                        BreadcrumbPickerChoice::PromptValue {
                            edit_index: None,
                            initial_value: None,
                            field_shape: String::from_str(shape),
                            field_name: field_name.clone(),
                            operator: ValueFilterOperator::Contains,
                        },
                    );
                    push_row(
                        &mut rows,
                        value_filter_label(field_name.as_str(), "does not equal"),
                        BreadcrumbPickerChoice::PromptValue {
                            edit_index: None,
                            initial_value: None,
                            field_shape: String::from_str(shape),
                            field_name: field_name.clone(),
                            operator: ValueFilterOperator::NotEquals,
                        },
                    );
                    filters_pushed = true;
                }
            }
            let mut label = String::from_str("project from ");
            let address_label = address.text();
            label.append(address_label.as_str());
            let path = address.path().duplicate();
            push_row(
                &mut rows,
                label,
                BreadcrumbPickerChoice::Add(Breadcrumb::projection(address.root_id().get(), path.segments)),
            );
            proof {
                let expected = selection_rows(address@, shape@);
                if filters_pushed {
                    assert(address@.path.len() > 0 && address@.path.last() is Field);
                } else {
                    assert(!(address@.path.len() > 0 && address@.path.last() is Field)) by {
                        if address@.path.len() > 0 {
                            assert(address@.path.last() == segments@[n - 1]@);
                        }
                    }
                }
                assert(picker_rows_view(rows@) =~= before + expected);
            }
        }
        let ghost prefix = picker_rows_view(rows@);
        proof {
            assert(prefix =~= seq![filter_shapes_row()] + match selected_view {
                Some((address, shape)) => selection_rows(address, shape),
                None => Seq::<PickerRowView>::empty(),
            });
        }
        let ghost all = breadcrumbs_view(breadcrumbs@);
        let mut i: usize = 0;
        while i < breadcrumbs.len()
            invariant
                i <= breadcrumbs@.len(),
                all == breadcrumbs_view(breadcrumbs@),
                picker_rows_view(rows@) == prefix + edit_rows(all.take(i as int)),
            decreases breadcrumbs.len() - i,
        {
            let ghost before = picker_rows_view(rows@);
            push_edit_row(&mut rows, &breadcrumbs[i], i);
            proof {
                assert(all.take(i + 1).drop_last() =~= all.take(i as int));
                assert(all.take(i + 1).last() == breadcrumbs@[i as int]@);
                assert(picker_rows_view(rows@) =~= prefix + edit_rows(all.take(i + 1)));
            }
            i = i + 1;
        }
        proof {
            assert(all.take(i as int) =~= all);
        }
        let ghost with_edits = picker_rows_view(rows@);
        push_row(
            &mut rows,
            String::from_str("pop to parents"),
            BreadcrumbPickerChoice::Add(Breadcrumb::Pop),
        );
        push_row(
            &mut rows,
            String::from_str(ProjectFieldsMode::Extend.label()),
            BreadcrumbPickerChoice::PickFields {
                edit_index: None,
                mode: ProjectFieldsMode::Extend,
                initially_included: Vec::new(),
            },
        );
        push_row(
            &mut rows,
            String::from_str(ProjectFieldsMode::Project.label()),
            BreadcrumbPickerChoice::PickFields {
                edit_index: None,
                mode: ProjectFieldsMode::Project,
                initially_included: Vec::new(),
            },
        );
        push_row(
            &mut rows,
            String::from_str("roots only"),
            BreadcrumbPickerChoice::Add(
                Breadcrumb::AddressKindFilter { include_roots: true, include_descendants: false },
            ),
        );
        push_row(
            &mut rows,
            String::from_str("descendants only"),
            BreadcrumbPickerChoice::Add(
                Breadcrumb::AddressKindFilter { include_roots: false, include_descendants: true },
            ),
        );
        proof {
            assert(fields_view(Seq::<ProjectedField>::empty()) =~= Seq::<ProjectedFieldView>::empty());
            assert(picker_rows_view(rows@) =~= with_edits + closing_rows());
        }
        BreadcrumbPicker { rows, selected: 0 }
    }

    pub fn rows(&self) -> (rows: &[BreadcrumbPickerRow])
        ensures
            picker_rows_view(rows@) == self.rows_spec(),
    {
        self.rows.as_slice()
    }

    pub fn selected_index(&self) -> (index: usize)
        ensures
            index == self.selection(),
    {
        self.selected
    }

    pub fn selected(&self) -> (row: Option<&BreadcrumbPickerRow>)
        ensures
            self.selection() < self.rows_spec().len() ==> (row matches Some(r) && r@
                == self.rows_spec()[self.selection() as int]),
            self.selection() >= self.rows_spec().len() ==> row is None,
    {
        if self.selected < self.rows.len() {
            Some(&self.rows[self.selected])
        } else {
            None
        }
    }

    pub fn move_next(&mut self)
        ensures
            final(self).rows_spec() == old(self).rows_spec(),
            final(self).selection() == next_selection(
                old(self).selection(),
                old(self).rows_spec().len(),
            ),
    {
        let count = self.rows.len();
        if count > 0 {
            self.selected = if self.selected < count - 1 {
                self.selected + 1
            } else {
                count - 1
            };
        }
    }

    pub fn move_previous(&mut self)
        ensures
            final(self).rows_spec() == old(self).rows_spec(),
            final(self).selection() == previous_selection(old(self).selection()),
    {
        if self.selected > 0 {
            self.selected = self.selected - 1;
        }
    }
}

/// Law: the picker always opens on "filter shapes…", whatever the
/// selection and query.
pub proof fn law_picker_opens_on_filter_shapes(
    selected: Option<(AddressView, Seq<char>)>,
    breadcrumbs: Seq<BreadcrumbView>,
)
    ensures
        picker_rows(selected, breadcrumbs).len() > 0,
        picker_rows(selected, breadcrumbs)[0] == filter_shapes_row(),
{
}

/// Whether a row adds an address-kind filter.
pub open spec fn adds_kind_filter(row: PickerRowView) -> bool {
    row.choice matches ChoiceView::Add(BreadcrumbView::AddressKindFilter { .. })
}

proof fn lemma_edit_rows_add_nothing(breadcrumbs: Seq<BreadcrumbView>)
    ensures
        forall|i: int| 0 <= i < edit_rows(breadcrumbs).len() ==> !(edit_rows(breadcrumbs)[i].choice is Add),
    decreases breadcrumbs.len(),
{
    if breadcrumbs.len() > 0 {
        lemma_edit_rows_add_nothing(breadcrumbs.drop_last());
        let front = edit_rows(breadcrumbs.drop_last());
        let tail = edit_row(breadcrumbs.last(), (breadcrumbs.len() - 1) as nat);
        assert forall|i: int| 0 <= i < edit_rows(breadcrumbs).len() implies !(edit_rows(
            breadcrumbs,
        )[i].choice is Add) by {
            if i < front.len() {
                assert(edit_rows(breadcrumbs)[i] == front[i]);
            } else {
                assert(edit_rows(breadcrumbs)[i] == tail[i - front.len()]);
            }
        }
    }
}

/// Whatever the selection and the query, the menu offers "roots only",
/// which keeps roots and drops their descendants, and "descendants only",
/// which does the converse; and every row that filters by address kind
/// keeps exactly one of the two kinds, the one its label names.
pub proof fn law_address_kind_rows_filter_as_labelled(
    selected: Option<(AddressView, Seq<char>)>,
    breadcrumbs: Seq<BreadcrumbView>,
)
    ensures
        forall|i: int| #![trigger picker_rows(selected, breadcrumbs)[i]]
            0 <= i < picker_rows(selected, breadcrumbs).len() && adds_kind_filter(
                picker_rows(selected, breadcrumbs)[i],
            ) ==> ({
                let row = picker_rows(selected, breadcrumbs)[i];
                let (roots, descendants) = match row.choice {
                    ChoiceView::Add(BreadcrumbView::AddressKindFilter {
                        include_roots,
                        include_descendants,
                    }) => (include_roots, include_descendants),
                    _ => (false, false),
                };
                &&& roots != descendants
                &&& row.label == (if roots { "roots only"@ } else { "descendants only"@ })
            }),
        exists|i: int|
            0 <= i < picker_rows(selected, breadcrumbs).len() && picker_rows(selected, breadcrumbs)[i]
                == (PickerRowView {
                label: "roots only"@,
                choice: ChoiceView::Add(
                    BreadcrumbView::AddressKindFilter { include_roots: true, include_descendants: false },
                ),
            }),
        exists|i: int|
            0 <= i < picker_rows(selected, breadcrumbs).len() && picker_rows(selected, breadcrumbs)[i]
                == (PickerRowView {
                label: "descendants only"@,
                choice: ChoiceView::Add(
                    BreadcrumbView::AddressKindFilter { include_roots: false, include_descendants: true },
                ),
            }),
{
    let rows = picker_rows(selected, breadcrumbs);
    let head = seq![filter_shapes_row()] + match selected {
        Some((address, shape)) => selection_rows(address, shape),
        None => Seq::empty(),
    };
    let edits = edit_rows(breadcrumbs);
    let closing = closing_rows();
    lemma_edit_rows_add_nothing(breadcrumbs);
    assert(rows == head + edits + closing);
    let n = rows.len();
    assert(rows[n - 2] == closing[3]);
    assert(rows[n - 1] == closing[4]);
    assert forall|i: int| #![trigger rows[i]] 0 <= i < rows.len() && adds_kind_filter(rows[i]) implies ({
        let row = rows[i];
        let (roots, descendants) = match row.choice {
            ChoiceView::Add(BreadcrumbView::AddressKindFilter {
                include_roots,
                include_descendants,
            }) => (include_roots, include_descendants),
            _ => (false, false),
        };
        &&& roots != descendants
        &&& row.label == (if roots { "roots only"@ } else { "descendants only"@ })
    }) by {
        if i < head.len() {
            assert(rows[i] == head[i]);
            if i > 0 {
                match selected {
                    Some((address, shape)) => {
                        assert(head[i] == selection_rows(address, shape)[i - 1]);
                    },
                    None => {},
                }
            }
        } else if i < head.len() + edits.len() {
            assert(rows[i] == edits[i - head.len()]);
        } else {
            assert(rows[i] == closing[i - head.len() - edits.len()]);
        }
    }
}

} // verus!
