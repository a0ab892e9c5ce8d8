//! Breadcrumbs: the explicit, composable operations of a tab's lazy query
//! over reflected addresses. A breadcrumb list is the query program itself,
//! never an evaluated result.
use vstd::prelude::*;
use crate::explorer::value_address::{segments_view, SegmentView, ValuePathSegment};

verus! {

#[derive(Clone, Copy, Debug, PartialEq, Eq, Structural, Hash)]
pub enum ValueFilterOperator {
    Equals,
    NotEquals,
    Contains,
}

#[derive(Clone, Copy, Debug, PartialEq, Eq, Structural, Hash)]
pub enum ProjectFieldsMode {
    Extend,
    Project,
}

pub open spec fn mode_label(mode: ProjectFieldsMode) -> Seq<char> {
    match mode {
        ProjectFieldsMode::Extend => "extend from fields"@,
        ProjectFieldsMode::Project => "project to fields"@,
    }
}

impl ProjectFieldsMode {
    pub fn label(self) -> (label: &'static str)
        ensures
            label@ == mode_label(self),
    {
        match self {
            ProjectFieldsMode::Extend => "extend from fields",
            ProjectFieldsMode::Project => "project to fields",
        }
    }
}

/// One named field of one shape, selected for projection.
#[derive(Clone, Debug, PartialEq, Eq, Hash, PartialOrd, Ord)]
pub struct ProjectedField {
    pub shape: String,
    pub field: String,
}

pub struct ProjectedFieldView {
    pub shape: Seq<char>,
    pub field: Seq<char>,
}

impl View for ProjectedField {
    type V = ProjectedFieldView;

    open spec fn view(&self) -> ProjectedFieldView {
        ProjectedFieldView { shape: self.shape@, field: self.field@ }
    }
}

impl ProjectedField {
    pub fn new(shape: &str, field: &str) -> (projected: ProjectedField)
        ensures
            projected@ == (ProjectedFieldView { shape: shape@, field: field@ }),
    {
        ProjectedField { shape: String::from_str(shape), field: String::from_str(field) }
    }

    /// `Shape.field`.
    pub fn label(&self) -> (label: String)
        ensures
            label@ == self.shape@ + seq!['.'] + self.field@,
    {
        let mut label = self.shape.clone();
        crate::text::push_char(&mut label, '.');
        label.append(self.field.as_str());
        label
    }

    pub fn duplicate(&self) -> (copy: ProjectedField)
        ensures
            copy@ == self@,
    {
        ProjectedField { shape: self.shape.clone(), field: self.field.clone() }
    }
}

/// One explicit operation of a query.
#[derive(Clone, Debug, PartialEq, Eq)]
pub enum Breadcrumb {
    Projection { root_slot_id: u64, path: Vec<ValuePathSegment> },
    ShapeFilter { included_shapes: Vec<String> },
    AddressKindFilter { include_roots: bool, include_descendants: bool },
    ValueFilter {
        field_shape: String,
        field_name: String,
        operator: ValueFilterOperator,
        value: String,
    },
    Pop,
    ProjectFields { mode: ProjectFieldsMode, included_fields: Vec<ProjectedField> },
}

pub enum BreadcrumbView {
    Projection { root_slot_id: u64, path: Seq<SegmentView> },
    ShapeFilter { included_shapes: Seq<Seq<char>> },
    AddressKindFilter { include_roots: bool, include_descendants: bool },
    ValueFilter {
        field_shape: Seq<char>,
        field_name: Seq<char>,
        operator: ValueFilterOperator,
        value: Seq<char>,
    },
    Pop,
    ProjectFields { mode: ProjectFieldsMode, included_fields: Seq<ProjectedFieldView> },
}

pub open spec fn strings_view(strings: Seq<String>) -> Seq<Seq<char>> {
    strings.map_values(|s: String| s@)
}

pub open spec fn fields_view(fields: Seq<ProjectedField>) -> Seq<ProjectedFieldView> {
    fields.map_values(|f: ProjectedField| f@)
}

impl View for Breadcrumb {
    type V = BreadcrumbView;

    open spec fn view(&self) -> BreadcrumbView {
        match self {
            Breadcrumb::Projection { root_slot_id, path } => BreadcrumbView::Projection {
                root_slot_id: *root_slot_id,
                path: segments_view(path@),
            },
            Breadcrumb::ShapeFilter { included_shapes } => BreadcrumbView::ShapeFilter {
                included_shapes: strings_view(included_shapes@),
            },
            Breadcrumb::AddressKindFilter { include_roots, include_descendants } =>
                BreadcrumbView::AddressKindFilter {
                include_roots: *include_roots,
                include_descendants: *include_descendants,
            },
            Breadcrumb::ValueFilter { field_shape, field_name, operator, value } =>
                BreadcrumbView::ValueFilter {
                field_shape: field_shape@,
                field_name: field_name@,
                operator: *operator,
                value: value@,
            },
            Breadcrumb::Pop => BreadcrumbView::Pop,
            Breadcrumb::ProjectFields { mode, included_fields } => BreadcrumbView::ProjectFields {
                mode: *mode,
                included_fields: fields_view(included_fields@),
            },
        }
    }
}

/// An equal copy of a list of strings.
pub fn copy_strings(strings: &Vec<String>) -> (copy: Vec<String>)
    ensures
        strings_view(copy@) == strings_view(strings@),
{
    let mut copy: Vec<String> = Vec::new();
    let mut i: usize = 0;
    while i < strings.len()
        invariant
            i <= strings.len(),
            copy@.len() == i,
            forall|k: int| 0 <= k < i ==> #[trigger] copy@[k]@ == strings@[k]@,
        decreases strings.len() - i,
    {
        copy.push(strings[i].clone());
        i = i + 1;
    }
    assert(strings_view(copy@) =~= strings_view(strings@));
    copy
}

/// An equal copy of a list of projected fields.
pub fn copy_fields(fields: &Vec<ProjectedField>) -> (copy: Vec<ProjectedField>)
    ensures
        fields_view(copy@) == fields_view(fields@),
{
    let mut copy: Vec<ProjectedField> = Vec::new();
    let mut i: usize = 0;
    while i < fields.len()
        invariant
            i <= fields.len(),
            copy@.len() == i,
            forall|k: int| 0 <= k < i ==> #[trigger] copy@[k]@ == fields@[k]@,
        decreases fields.len() - i,
    {
        copy.push(fields[i].duplicate());
        i = i + 1;
    }
    assert(fields_view(copy@) =~= fields_view(fields@));
    copy
}

impl Breadcrumb {
    /// Projection from one arena root along `path`.
    pub fn projection(root_slot_id: u64, path: Vec<ValuePathSegment>) -> (breadcrumb: Breadcrumb)
        ensures
            breadcrumb@ == (BreadcrumbView::Projection {
                root_slot_id,
                path: segments_view(path@),
            }),
    {
        Breadcrumb::Projection { root_slot_id, path }
    }
}

/// Ordered, composable projection and filter operations.
#[derive(Clone, Debug, PartialEq, Eq)]
pub struct Breadcrumbs {
    operations: Vec<Breadcrumb>,
}

impl Default for Breadcrumbs {
    fn default() -> (breadcrumbs: Breadcrumbs)
        ensures
            breadcrumbs.ops() == Seq::<Breadcrumb>::empty(),
    {
        Breadcrumbs { operations: Vec::new() }
    }
}

impl Breadcrumbs {
    pub closed spec fn ops(&self) -> Seq<Breadcrumb> {
        self.operations@
    }

    pub fn new(operations: Vec<Breadcrumb>) -> (breadcrumbs: Breadcrumbs)
        ensures
            breadcrumbs.ops() == operations@,
    {
        Breadcrumbs { operations }
    }

    pub fn operations(&self) -> (operations: &[Breadcrumb])
        ensures
            operations@ == self.ops(),
    {
        self.operations.as_slice()
    }

    pub fn into_operations(self) -> (operations: Vec<Breadcrumb>)
        ensures
            operations@ == self.ops(),
    {
        self.operations
    }

    /// Appends `operation` as the last step of the query.
    pub fn push(&mut self, operation: Breadcrumb)
        ensures
            final(self).ops() == old(self).ops().push(operation),
    {
        self.operations.push(operation);
    }

    /// Removes and returns the step at `index`.
    pub fn remove(&mut self, index: usize) -> (removed: Breadcrumb)
        requires
            index < old(self).ops().len(),
        ensures
            removed == old(self).ops()[index as int],
            final(self).ops() == old(self).ops().remove(index as int),
    {
        self.operations.remove(index)
    }

    /// Replaces the step at `index`, returning the previous step; an index
    /// past the end leaves the query unchanged.
    pub fn replace(&mut self, index: usize, operation: Breadcrumb) -> (previous: Option<Breadcrumb>)
        ensures
            index < old(self).ops().len() ==> {
                &&& previous == Some(old(self).ops()[index as int])
                &&& final(self).ops() == old(self).ops().update(index as int, operation)
            },
            index >= old(self).ops().len() ==> {
                &&& previous is None
                &&& final(self).ops() == old(self).ops()
            },
    {
        if index >= self.operations.len() {
            return None;
        }
        let mut existing = operation;
        self.operations.set_and_swap(index, &mut existing);
        Some(existing)
    }

    pub fn is_empty(&self) -> (empty: bool)
        ensures
            empty == (self.ops().len() == 0),
    {
        self.operations.len() == 0
    }
}

/// Law: replacing a step and then putting the previous step back restores
/// the query exactly.
pub proof fn law_replace_is_undone_by_replacing_back(
    ops: Seq<Breadcrumb>,
    index: int,
    operation: Breadcrumb,
)
    requires
        0 <= index < ops.len(),
    ensures
        ops.update(index, operation).update(index, ops[index]) == ops,
{
    assert(ops.update(index, operation).update(index, ops[index]) =~= ops);
}

/// Law: removing the step just pushed restores the query exactly.
pub proof fn law_push_is_undone_by_removing_last(ops: Seq<Breadcrumb>, operation: Breadcrumb)
    ensures
        ops.push(operation).remove(ops.len() as int) == ops,
        ops.push(operation)[ops.len() as int] == operation,
{
    assert(ops.push(operation).remove(ops.len() as int) =~= ops);
}

} // verus!
