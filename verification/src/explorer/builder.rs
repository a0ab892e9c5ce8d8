//! Bounded, non-owning construction metadata for one building root: the
//! shape being built, how it is built (scalar, struct or enum variant) and
//! a bounded prefix of its fields with their bindings.
use vstd::prelude::*;
use crate::explorer::card::{BindingView, FieldBindingSnapshot};
use crate::explorer::field_binding::{snapshot_view, FieldBinding};

verus! {

/// UI-neutral metadata for one field of an incomplete value.
#[derive(Clone, Debug, PartialEq, Eq)]
pub struct BuilderFieldSnapshot {
    index: usize,
    name: String,
    shape_name: String,
    has_default: bool,
    binding: FieldBindingSnapshot,
}

pub struct BuilderFieldView {
    pub index: usize,
    pub name: Seq<char>,
    pub shape_name: Seq<char>,
    pub has_default: bool,
    pub binding: BindingView,
}

impl View for BuilderFieldSnapshot {
    type V = BuilderFieldView;

    closed spec fn view(&self) -> BuilderFieldView {
        BuilderFieldView {
            index: self.index,
            name: self.name@,
            shape_name: self.shape_name@,
            has_default: self.has_default,
            binding: self.binding@,
        }
    }
}

impl BuilderFieldSnapshot {
    /// Field `index` named `name`, of the shape named `shape_name`, bound by
    /// `binding` (an inline value described as `inline_shape`).
    pub fn new<V>(
        index: usize,
        name: &str,
        shape_name: &str,
        has_default: bool,
        binding: &FieldBinding<V>,
        inline_shape: &str,
    ) -> (field: BuilderFieldSnapshot)
        ensures
            field@ == (BuilderFieldView {
                index,
                name: name@,
                shape_name: shape_name@,
                has_default,
                binding: snapshot_view(*binding, inline_shape@),
            }),
    {
        BuilderFieldSnapshot {
            index,
            name: String::from_str(name),
            shape_name: String::from_str(shape_name),
            has_default,
            binding: FieldBindingSnapshot::from_binding(binding, inline_shape),
        }
    }

    pub fn index(&self) -> (index: usize)
        ensures
            index == self@.index,
    {
        self.index
    }

    pub fn name(&self) -> (name: &str)
        ensures
            name@ == self@.name,
    {
        self.name.as_str()
    }

    pub fn shape_name(&self) -> (shape_name: &str)
        ensures
            shape_name@ == self@.shape_name,
    {
        self.shape_name.as_str()
    }

    pub fn has_default(&self) -> (has_default: bool)
        ensures
            has_default == self@.has_default,
    {
        self.has_default
    }

    pub fn binding(&self) -> (binding: &FieldBindingSnapshot)
        ensures
            binding@ == self@.binding,
    {
        &self.binding
    }
}

/// How a building root is being constructed.
#[derive(Clone, Debug, PartialEq, Eq)]
pub enum BuilderKindSnapshot {
    ShapeUnset,
    Scalar { value_is_set: bool },
    Struct,
    Enum { selected_variant: Option<usize>, selected_variant_name: Option<String> },
}

/// The reflected kind of the shape being built, as plain values: a struct,
/// an enum with its variant names, or anything else (built as a scalar).
#[derive(Clone, Debug, PartialEq, Eq)]
pub enum BuilderShapeKind {
    Struct,
    Enum { variant_names: Vec<String> },
    Scalar,
}

pub open spec fn fields_view(fields: Seq<BuilderFieldSnapshot>) -> Seq<BuilderFieldView> {
    fields.map_values(|field: BuilderFieldSnapshot| field@)
}

/// Bounded construction metadata of one building root.
#[derive(Clone, Debug, PartialEq, Eq)]
pub struct BuilderSnapshot {
    shape_name: Option<String>,
    kind: BuilderKindSnapshot,
    fields: Vec<BuilderFieldSnapshot>,
    fields_complete: bool,
}

impl BuilderSnapshot {
    pub closed spec fn shape_name_view(&self) -> Option<Seq<char>> {
        match self.shape_name {
            Some(name) => Some(name@),
            None => None,
        }
    }

    pub closed spec fn kind_view(&self) -> BuilderKindSnapshot {
        self.kind
    }

    pub closed spec fn fields_spec(&self) -> Seq<BuilderFieldView> {
        fields_view(self.fields@)
    }

    pub closed spec fn fields_complete_spec(&self) -> bool {
        self.fields_complete
    }

    /// A root whose shape has not been chosen yet.
    pub fn shape_unset() -> (snapshot: BuilderSnapshot)
        ensures
            snapshot.shape_name_view() is None,
            snapshot.kind_view() == BuilderKindSnapshot::ShapeUnset,
            snapshot.fields_spec() == Seq::<BuilderFieldView>::empty(),
            snapshot.fields_complete_spec(),
    {
        let snapshot = BuilderSnapshot {
            shape_name: None,
            kind: BuilderKindSnapshot::ShapeUnset,
            fields: Vec::new(),
            fields_complete: true,
        };
        assert(snapshot.fields_spec() =~= Seq::<BuilderFieldView>::empty());
        snapshot
    }

    /// The snapshot of a builder of the shape `shape_name` whose kind is
    /// `shape_kind`, that has `field_count` fields described (in index
    /// order, at least the first `max_fields` of them) by `fields`. Only the
    /// first `max_fields` fields are kept; an enum builder reports its
    /// `selected_variant` by index and name, a scalar builder whether its
    /// value is set.
    pub fn observe(
        shape_name: &str,
        shape_kind: &BuilderShapeKind,
        selected_variant: Option<usize>,
        scalar_is_set: bool,
        field_count: usize,
        fields: Vec<BuilderFieldSnapshot>,
        max_fields: usize,
    ) -> (snapshot: BuilderSnapshot)
        requires
            fields@.len() >= (if field_count < max_fields { field_count } else { max_fields }),
        ensures
            snapshot.shape_name_view() == Some(shape_name@),
            snapshot.fields_spec() == fields_view(fields@).take(
                if field_count < max_fields { field_count as int } else { max_fields as int },
            ),
            snapshot.fields_complete_spec() == (field_count <= max_fields),
            match shape_kind {
                BuilderShapeKind::Struct => snapshot.kind_view() == BuilderKindSnapshot::Struct,
                BuilderShapeKind::Scalar => snapshot.kind_view() == (BuilderKindSnapshot::Scalar {
                    value_is_set: scalar_is_set,
                }),
                BuilderShapeKind::Enum { variant_names } => snapshot.kind_view() matches BuilderKindSnapshot::Enum {
                    selected_variant: v,
                    selected_variant_name: name,
                } && v == selected_variant && match selected_variant {
                    Some(index) => if index < variant_names@.len() {
                        name matches Some(n) && n@ == variant_names@[index as int]@
                    } else {
                        name is None
                    },
                    None => name is None,
                },
            },
    {
        let kept = if field_count < max_fields { field_count } else { max_fields };
        let mut fields = fields;
        let ghost all = fields_view(fields@);
        fields.truncate(kept);
        assert(fields_view(fields@) =~= all.take(kept as int));
        let kind = match shape_kind {
            BuilderShapeKind::Struct => BuilderKindSnapshot::Struct,
            BuilderShapeKind::Enum { variant_names } => {
                let name = match selected_variant {
                    Some(index) => if index < variant_names.len() {
                        Some(variant_names[index].clone())
                    } else {
                        None
                    },
                    None => None,
                };
                BuilderKindSnapshot::Enum { selected_variant, selected_variant_name: name }
            },
            BuilderShapeKind::Scalar => BuilderKindSnapshot::Scalar { value_is_set: scalar_is_set },
        };
        BuilderSnapshot {
            shape_name: Some(String::from_str(shape_name)),
            kind,
            fields,
            fields_complete: field_count <= max_fields,
        }
    }

    pub fn shape_name(&self) -> (shape_name: Option<&str>)
        ensures
            match shape_name {
                Some(name) => self.shape_name_view() == Some(name@),
                None => self.shape_name_view() is None,
            },
    {
        match &self.shape_name {
            Some(name) => Some(name.as_str()),
            None => None,
        }
    }

    pub fn kind(&self) -> (kind: &BuilderKindSnapshot)
        ensures
            *kind == self.kind_view(),
    {
        &self.kind
    }

    pub fn fields(&self) -> (fields: &[BuilderFieldSnapshot])
        ensures
            fields_view(fields@) == self.fields_spec(),
    {
        self.fields.as_slice()
    }

    pub fn fields_complete(&self) -> (complete: bool)
        ensures
            complete == self.fields_complete_spec(),
    {
        self.fields_complete
    }
}

} // verus!
