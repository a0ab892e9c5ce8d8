//! The breadcrumb that a finished shape or field picker produces: the
//! picked shapes (or fields) in order without repeats, pushed as a new
//! query operation or replacing the one being edited.
use vstd::prelude::*;
use crate::explorer::breadcrumb::{Breadcrumb, ProjectFieldsMode, ProjectedField};
use crate::explorer::breadcrumb_context::{
    ChoiceKey, insert_choice, keys_before, keys_of, lemma_keys_order, sorted_keys,
};
use crate::text::text_precedes;

verus! {

impl ChoiceKey for ProjectedField {
    open spec fn choice_key(&self) -> Seq<Seq<char>> {
        seq![self.shape@, self.field@]
    }

    fn precedes(&self, other: &Self) -> (before: bool) {
        let ghost a = self.choice_key();
        let ghost b = other.choice_key();
        proof {
            reveal_with_fuel(keys_before, 3);
            assert(a.drop_first() =~= seq![a[1]]);
            assert(b.drop_first() =~= seq![b[1]]);
            assert(a.drop_first().drop_first() =~= Seq::<Seq<char>>::empty());
            assert(b.drop_first().drop_first() =~= Seq::<Seq<char>>::empty());
        }
        if self.shape != other.shape {
            return text_precedes(self.shape.as_str(), other.shape.as_str());
        }
        if self.field != other.field {
            return text_precedes(self.field.as_str(), other.field.as_str());
        }
        false
    }

    fn same_choice(&self, other: &Self) -> (same: bool) {
        let same = self.shape == other.shape && self.field == other.field;
        proof {
            let a = self.choice_key();
            let b = other.choice_key();
            if a == b {
                assert(a[0] == b[0] && a[1] == b[1]);
            }
            if same {
                assert(a =~= b);
            }
        }
        same
    }
}

/// One value a breadcrumb picker returns.
#[derive(Clone, Debug, PartialEq, Eq)]
pub enum BreadcrumbPickerValue {
    Shape(String),
    Field(ProjectedField),
}

/// What a breadcrumb picker was opened for: a shape filter or a field
/// projection, new or replacing the operation at `edit_index`.
#[derive(Clone, Copy, Debug, PartialEq, Eq)]
pub enum BreadcrumbPickerTarget {
    Shapes { edit_index: Option<usize> },
    Fields { edit_index: Option<usize>, mode: ProjectFieldsMode },
}

/// The change a finished picker makes to the active tab's breadcrumbs.
#[derive(Clone, Debug, PartialEq, Eq)]
pub enum BreadcrumbEdit {
    Push(Breadcrumb),
    Replace { index: usize, breadcrumb: Breadcrumb },
}

/// Keys of the picked shapes among `values`.
pub open spec fn picked_shape_keys(values: Seq<BreadcrumbPickerValue>) -> Set<Seq<Seq<char>>>
    decreases values.len(),
{
    if values.len() == 0 {
        Set::empty()
    } else {
        let rest = picked_shape_keys(values.drop_last());
        match values.last() {
            BreadcrumbPickerValue::Shape(shape) => rest.insert(shape.choice_key()),
            BreadcrumbPickerValue::Field(_) => rest,
        }
    }
}

/// Keys of the picked fields among `values`.
pub open spec fn picked_field_keys(values: Seq<BreadcrumbPickerValue>) -> Set<Seq<Seq<char>>>
    decreases values.len(),
{
    if values.len() == 0 {
        Set::empty()
    } else {
        let rest = picked_field_keys(values.drop_last());
        match values.last() {
            BreadcrumbPickerValue::Field(field) => rest.insert(field.choice_key()),
            BreadcrumbPickerValue::Shape(_) => rest,
        }
    }
}

/// The picked shapes, in order and without repeats.
pub fn picked_shapes(values: &Vec<BreadcrumbPickerValue>) -> (shapes: Vec<String>)
    ensures
        sorted_keys(keys_of(shapes@)),
        keys_of(shapes@).to_set() == picked_shape_keys(values@),
{
    let mut shapes: Vec<String> = Vec::new();
    let mut i: usize = 0;
    assert(keys_of(shapes@).to_set() =~= Set::<Seq<Seq<char>>>::empty());
    while i < values.len()
        invariant
            i <= values.len(),
            sorted_keys(keys_of(shapes@)),
            keys_of(shapes@).to_set() == picked_shape_keys(values@.take(i as int)),
        decreases values.len() - i,
    {
        assert(values@.take(i + 1).drop_last() =~= values@.take(i as int));
        match &values[i] {
            BreadcrumbPickerValue::Shape(shape) => insert_choice(&mut shapes, shape.clone()),
            BreadcrumbPickerValue::Field(_) => {},
        }
        i = i + 1;
    }
    assert(values@.take(i as int) =~= values@);
    shapes
}

/// The picked fields, in order (by shape, then field name) without repeats.
pub fn picked_fields(values: &Vec<BreadcrumbPickerValue>) -> (fields: Vec<ProjectedField>)
    ensures
        sorted_keys(keys_of(fields@)),
        keys_of(fields@).to_set() == picked_field_keys(values@),
{
    let mut fields: Vec<ProjectedField> = Vec::new();
    let mut i: usize = 0;
    assert(keys_of(fields@).to_set() =~= Set::<Seq<Seq<char>>>::empty());
    while i < values.len()
        invariant
            i <= values.len(),
            sorted_keys(keys_of(fields@)),
            keys_of(fields@).to_set() == picked_field_keys(values@.take(i as int)),
        decreases values.len() - i,
    {
        assert(values@.take(i + 1).drop_last() =~= values@.take(i as int));
        match &values[i] {
            BreadcrumbPickerValue::Field(field) => insert_choice(&mut fields, field.duplicate()),
            BreadcrumbPickerValue::Shape(_) => {},
        }
        i = i + 1;
    }
    assert(values@.take(i as int) =~= values@);
    fields
}

/// The edit a picker opened for `target` makes with the `picked` values: a
/// shape filter over the picked shapes, or a field projection in the
/// target's mode over the picked fields (values of the other kind are
/// ignored), pushed as a new operation or replacing the edited one.
pub fn picked_breadcrumb(target: BreadcrumbPickerTarget, picked: &Vec<BreadcrumbPickerValue>) -> (edit:
    BreadcrumbEdit)
    ensures
        ({
            let breadcrumb = match edit {
                BreadcrumbEdit::Push(b) => b,
                BreadcrumbEdit::Replace { breadcrumb, .. } => breadcrumb,
            };
            match target {
                BreadcrumbPickerTarget::Shapes { .. } => breadcrumb matches Breadcrumb::ShapeFilter {
                    included_shapes,
                } && sorted_keys(keys_of(included_shapes@)) && keys_of(included_shapes@).to_set()
                    == picked_shape_keys(picked@),
                BreadcrumbPickerTarget::Fields { mode, .. } => breadcrumb matches Breadcrumb::ProjectFields {
                    mode: m,
                    included_fields,
                } && m == mode && sorted_keys(keys_of(included_fields@)) && keys_of(
                    included_fields@,
                ).to_set() == picked_field_keys(picked@),
            }
        }),
        match target {
            BreadcrumbPickerTarget::Shapes { edit_index } | BreadcrumbPickerTarget::Fields {
                edit_index,
                ..
            } => match edit_index {
                Some(index) => edit matches BreadcrumbEdit::Replace { index: i, .. } && i == index,
                None => edit is Push,
            },
        },
{
    let (breadcrumb, edit_index) = match target {
        BreadcrumbPickerTarget::Shapes { edit_index } => (
            Breadcrumb::ShapeFilter { included_shapes: picked_shapes(picked) },
            edit_index,
        ),
        BreadcrumbPickerTarget::Fields { edit_index, mode } => (
            Breadcrumb::ProjectFields { mode, included_fields: picked_fields(picked) },
            edit_index,
        ),
    };
    match edit_index {
        Some(index) => BreadcrumbEdit::Replace { index, breadcrumb },
        None => BreadcrumbEdit::Push(breadcrumb),
    }
}

proof fn lemma_drop_first_set(a: Seq<Seq<Seq<char>>>)
    requires
        sorted_keys(a),
        a.len() > 0,
    ensures
        a.drop_first().to_set() == a.to_set().remove(a[0]),
        sorted_keys(a.drop_first()),
{
    let rest = a.drop_first();
    assert forall|x: Seq<Seq<char>>| rest.to_set().contains(x) <==> a.to_set().remove(a[0]).contains(
        x,
    ) by {
        if rest.to_set().contains(x) {
            let i = choose|i: int| 0 <= i < rest.len() && rest[i] == x;
            assert(a[i + 1] == x);
            assert(keys_before(a[0], a[i + 1]));
            lemma_keys_order(a[0], a[0]);
            assert(x != a[0]);
        }
        if a.to_set().remove(a[0]).contains(x) {
            let i = choose|i: int| 0 <= i < a.len() && a[i] == x;
            assert(i != 0);
            assert(rest[i - 1] == x);
        }
    }
    assert(rest.to_set() =~= a.to_set().remove(a[0]));
    assert forall|i: int, j: int| 0 <= i < j < rest.len() implies keys_before(
        #[trigger] rest[i],
        #[trigger] rest[j],
    ) by {
        assert(rest[i] == a[i + 1] && rest[j] == a[j + 1]);
    }
}

/// What a picker produces is canonical: two ordered, repeat-free lists
/// holding the same picked keys are the same list, so the order in which
/// values were picked, and picking one twice, change nothing.
pub proof fn law_picked_lists_are_canonical(a: Seq<Seq<Seq<char>>>, b: Seq<Seq<Seq<char>>>)
    requires
        sorted_keys(a),
        sorted_keys(b),
        a.to_set() == b.to_set(),
    ensures
        a == b,
    decreases a.len(),
{
    if a.len() == 0 {
        if b.len() > 0 {
            assert(b.to_set().contains(b[0]));
        }
        assert(a =~= b);
    } else {
        assert(a.to_set().contains(a[0]));
        assert(b.to_set().contains(a[0]));
        let m = choose|m: int| 0 <= m < b.len() && b[m] == a[0];
        assert(a.to_set().contains(b[0]));
        let k = choose|k: int| 0 <= k < a.len() && a[k] == b[0];
        if a[0] != b[0] {
            assert(k > 0 && m > 0);
            assert(keys_before(a[0], a[k]));
            assert(keys_before(b[0], b[m]));
            lemma_keys_order(a[0], b[0]);
            assert(false);
        }
        lemma_drop_first_set(a);
        lemma_drop_first_set(b);
        law_picked_lists_are_canonical(a.drop_first(), b.drop_first());
        assert(a =~= seq![a[0]] + a.drop_first());
        assert(b =~= seq![b[0]] + b.drop_first());
    }
}

} // verus!
