//! The picker that chooses the variant of an enum builder, narrowed by a
//! case-insensitive substring query.
use vstd::prelude::*;
use crate::explorer::breadcrumb::strings_view;
use crate::explorer::ids::SlotId;
use crate::text::{chars_contain, chars_of, contains_text, lowercase, pop_char, push_char, to_lowercase};

verus! {

/// Indices of the labels that contain `query`, ignoring case, in order.
pub open spec fn variant_matches(labels: Seq<Seq<char>>, query: Seq<char>) -> Seq<usize>
    decreases labels.len(),
{
    if labels.len() == 0 {
        Seq::empty()
    } else {
        let rest = variant_matches(labels.drop_last(), query);
        if contains_text(lowercase(labels.last()), lowercase(query)) {
            rest.push((labels.len() - 1) as usize)
        } else {
            rest
        }
    }
}

pub struct VariantPickerView {
    pub slot: SlotId,
    pub shape: Seq<char>,
    pub labels: Seq<Seq<char>>,
    pub query: Seq<char>,
    pub matches: Seq<usize>,
    pub selected: usize,
}

/// Variant choice for the enum builder `slot` of shape `shape`.
pub struct VariantPicker {
    slot: SlotId,
    shape: String,
    labels: Vec<String>,
    query: String,
    matches: Vec<usize>,
    selected: usize,
}

impl VariantPicker {
    #[verifier::type_invariant]
    spec fn matches_name_labels(&self) -> bool {
        forall|k: int| 0 <= k < self.matches@.len() ==> #[trigger] self.matches@[k] < self.labels@.len()
    }
}

impl View for VariantPicker {
    type V = VariantPickerView;

    closed spec fn view(&self) -> VariantPickerView {
        VariantPickerView {
            slot: self.slot,
            shape: self.shape@,
            labels: strings_view(self.labels@),
            query: self.query@,
            matches: self.matches@,
            selected: self.selected,
        }
    }
}

/// `picker` with its matches recomputed for its query and the selection
/// kept within them.
pub open spec fn refiltered(picker: VariantPickerView) -> VariantPickerView {
    let matches = variant_matches(picker.labels, picker.query);
    let cap = if matches.len() == 0 { 0 } else { matches.len() - 1 };
    VariantPickerView {
        matches,
        selected: if picker.selected > cap { cap as usize } else { picker.selected },
        ..picker
    }
}

impl VariantPicker {
    /// A picker over the variants `variant_names` of the enum `shape`;
    /// `None` when the shape is not an enum (it has no variant list).
    pub fn new(slot: SlotId, shape: &str, variant_names: Option<Vec<String>>) -> (picker: Option<
        VariantPicker,
    >)
        ensures
            variant_names is None ==> picker is None,
            variant_names matches Some(names) ==> (picker matches Some(p) && p@ == (
            VariantPickerView {
                slot,
                shape: shape@,
                labels: strings_view(names@),
                query: Seq::empty(),
                matches: Seq::new(names@.len(), |i: int| i as usize),
                selected: 0,
            })),
    {
        let labels = match variant_names {
            Some(labels) => labels,
            None => return None,
        };
        let mut matches: Vec<usize> = Vec::new();
        let mut i: usize = 0;
        while i < labels.len()
            invariant
                i <= labels@.len(),
                matches@ == Seq::new(i as nat, |k: int| k as usize),
            decreases labels.len() - i,
        {
            matches.push(i);
            i = i + 1;
            assert(matches@ =~= Seq::new(i as nat, |k: int| k as usize));
        }
        Some(
            VariantPicker {
                slot,
                shape: String::from_str(shape),
                labels,
                query: String::new(),
                matches,
                selected: 0,
            },
        )
    }

    pub fn slot(&self) -> (slot: SlotId)
        ensures
            slot == self@.slot,
    {
        self.slot
    }

    pub fn shape(&self) -> (shape: &str)
        ensures
            shape@ == self@.shape,
    {
        self.shape.as_str()
    }

    pub fn query(&self) -> (query: &str)
        ensures
            query@ == self@.query,
    {
        self.query.as_str()
    }

    /// The matching variants, each with its label, in order.
    pub fn matches(&self) -> (matches: Vec<(usize, String)>)
        ensures
            matches@.len() == self@.matches.len(),
            forall|k: int|
                0 <= k < matches@.len() ==> #[trigger] matches@[k].0 == self@.matches[k]
                    && matches@[k].1@ == self@.labels[self@.matches[k] as int],
    {
        proof {
            use_type_invariant(self);
        }
        let mut result: Vec<(usize, String)> = Vec::new();
        let mut k: usize = 0;
        while k < self.matches.len()
            invariant
                k <= self.matches@.len(),
                forall|j: int| 0 <= j < self.matches@.len() ==> #[trigger] self.matches@[j] < self.labels@.len(),
                result@.len() == k,
                forall|j: int|
                    0 <= j < k ==> #[trigger] result@[j].0 == self@.matches[j] && result@[j].1@
                        == self@.labels[self@.matches[j] as int],
            decreases self.matches.len() - k,
        {
            let index = self.matches[k];
            result.push((index, self.labels[index].clone()));
            k = k + 1;
        }
        result
    }

    /// The variant under the selection, if any.
    pub fn selected_variant(&self) -> (variant: Option<usize>)
        ensures
            variant == (if self@.selected < self@.matches.len() {
                Some(self@.matches[self@.selected as int])
            } else {
                None
            }),
    {
        if self.selected < self.matches.len() {
            Some(self.matches[self.selected])
        } else {
            None
        }
    }

    pub fn selected_index(&self) -> (index: usize)
        ensures
            index == self@.selected,
    {
        self.selected
    }

    pub fn push(&mut self, character: char)
        ensures
            final(self)@ == refiltered(VariantPickerView { query: old(self)@.query.push(character), ..old(self)@ }),
    {
        proof {
            use_type_invariant(&*self);
        }
        let mut query = self.query.clone();
        push_char(&mut query, character);
        self.query = query;
        self.rebuild();
    }

    pub fn pop(&mut self)
        ensures
            final(self)@ == refiltered(
                VariantPickerView {
                    query: if old(self)@.query.len() == 0 {
                        old(self)@.query
                    } else {
                        old(self)@.query.drop_last()
                    },
                    ..old(self)@
                },
            ),
    {
        proof {
            use_type_invariant(&*self);
        }
        let mut query = self.query.clone();
        let _ = pop_char(&mut query);
        self.query = query;
        self.rebuild();
    }

    pub fn move_next(&mut self)
        ensures
            final(self)@ == (VariantPickerView {
                selected: if old(self)@.matches.len() == 0 {
                    old(self)@.selected
                } else if old(self)@.selected + 1 > old(self)@.matches.len() - 1 {
                    (old(self)@.matches.len() - 1) as usize
                } else {
                    (old(self)@.selected + 1) as usize
                },
                ..old(self)@
            }),
    {
        proof {
            use_type_invariant(&*self);
        }
        if self.matches.len() > 0 {
            let last = self.matches.len() - 1;
            self.selected = if self.selected >= last { last } else { self.selected + 1 };
        }
    }

    pub fn move_previous(&mut self)
        ensures
            final(self)@ == (VariantPickerView {
                selected: if old(self)@.selected == 0 { 0 } else { (old(self)@.selected - 1) as usize },
                ..old(self)@
            }),
    {
        proof {
            use_type_invariant(&*self);
        }
        if self.selected > 0 {
            self.selected = self.selected - 1;
        }
    }

    fn rebuild(&mut self)
        ensures
            final(self)@ == refiltered(old(self)@),
    {
        proof {
            use_type_invariant(&*self);
        }
        let ghost labels = strings_view(self.labels@);
        let lower_query = to_lowercase(self.query.as_str());
        let q = chars_of(lower_query.as_str());
        let mut matches: Vec<usize> = Vec::new();
        let mut i: usize = 0;
        while i < self.labels.len()
            invariant
                labels == strings_view(self.labels@),
                q@ == lowercase(self.query@),
                i <= self.labels@.len(),
                matches@ == variant_matches(labels.take(i as int), self.query@),
            forall|k: int| 0 <= k < matches@.len() ==> #[trigger] matches@[k] < i,
            decreases self.labels.len() - i,
        {
            assert(labels.take(i + 1).drop_last() =~= labels.take(i as int));
            let lower = to_lowercase(self.labels[i].as_str());
            let label = chars_of(lower.as_str());
            if chars_contain(&label, &q) {
                matches.push(i);
            }
            i = i + 1;
        }
        assert(labels.take(self.labels@.len() as int) =~= labels);
        let count = matches.len();
        self.matches = matches;
        let cap = if count == 0 { 0 } else { count - 1 };
        if self.selected > cap {
            self.selected = cap;
        }
    }
}


/// After the query changes, the selection is on a matching variant
/// whenever one matches.
pub proof fn law_refiltered_selection_is_on_a_match(picker: VariantPickerView)
    ensures
        refiltered(picker).matches.len() > 0 ==> refiltered(picker).selected < refiltered(
            picker,
        ).matches.len(),
{
}

} // verus!
