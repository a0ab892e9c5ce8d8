//! Bounded reflection metadata observed from one breadcrumb-query prefix:
//! the shapes and named fields met (for the breadcrumb pickers) or the
//! scalar texts of one field (for value filters). Choices are kept as sorted
//! sets capped at a limit; hitting the cap marks the snapshot incomplete.
//!
//! Reflecting a value (its shape name, its named fields, its scalar text)
//! is done by the caller; the collectors here decide what is kept.
use vstd::prelude::*;
use crate::explorer::breadcrumb::{ProjectedField, ProjectedFieldView};
use crate::text::{
    lemma_text_order, lemma_text_transitive, push_char, push_text, same_text, text_before,
    text_precedes,
};

verus! {

/// `a` sorts strictly before `b`, comparing component texts in turn (the
/// order `derive(Ord)` gives a struct of strings).
pub open spec fn keys_before(a: Seq<Seq<char>>, b: Seq<Seq<char>>) -> bool
    decreases a.len(),
{
    if a.len() == 0 {
        b.len() > 0
    } else if b.len() == 0 {
        false
    } else if a[0] != b[0] {
        text_before(a[0], b[0])
    } else {
        keys_before(a.drop_first(), b.drop_first())
    }
}

/// `keys_before` is irreflexive, asymmetric and total.
pub proof fn lemma_keys_order(a: Seq<Seq<char>>, b: Seq<Seq<char>>)
    ensures
        !keys_before(a, a),
        keys_before(a, b) ==> !keys_before(b, a),
        a != b ==> keys_before(a, b) || keys_before(b, a),
    decreases a.len(),
{
    if a.len() > 0 {
        lemma_keys_order(a.drop_first(), a.drop_first());
    }
    if a.len() == 0 && b.len() == 0 {
        assert(a =~= b);
    }
    if a.len() > 0 && b.len() > 0 {
        lemma_text_order(a[0], b[0]);
        lemma_keys_order(a.drop_first(), b.drop_first());
        if a[0] == b[0] && a.drop_first() == b.drop_first() {
            assert(a =~= seq![a[0]] + a.drop_first());
            assert(b =~= seq![b[0]] + b.drop_first());
        }
    }
}

/// `keys_before` is transitive.
pub proof fn lemma_keys_transitive(a: Seq<Seq<char>>, b: Seq<Seq<char>>, c: Seq<Seq<char>>)
    requires
        keys_before(a, b),
        keys_before(b, c),
    ensures
        keys_before(a, c),
    decreases a.len(),
{
    if a.len() > 0 && b.len() > 0 && c.len() > 0 {
        lemma_text_order(a[0], b[0]);
        lemma_text_order(b[0], c[0]);
        lemma_text_order(a[0], c[0]);
        if a[0] != b[0] && b[0] != c[0] {
            lemma_text_transitive(a[0], b[0], c[0]);
        }
        if a[0] == b[0] && b[0] == c[0] {
            lemma_keys_transitive(a.drop_first(), b.drop_first(), c.drop_first());
        }
    }
}

/// A choice that can be kept in a sorted, duplicate-free set.
pub trait ChoiceKey {
    /// The component texts the choice is ordered and identified by.
    spec fn choice_key(&self) -> Seq<Seq<char>>;

    fn precedes(&self, other: &Self) -> (before: bool)
        ensures
            before == keys_before(self.choice_key(), other.choice_key()),
    ;

    fn same_choice(&self, other: &Self) -> (same: bool)
        ensures
            same == (self.choice_key() == other.choice_key()),
    ;
}

impl ChoiceKey for String {
    open spec fn choice_key(&self) -> Seq<Seq<char>> {
        seq![self@]
    }

    fn precedes(&self, other: &Self) -> (before: bool) {
        let before = text_precedes(self.as_str(), other.as_str());
        proof {
            reveal_with_fuel(keys_before, 2);
            assert(seq![self@].drop_first() =~= Seq::<Seq<char>>::empty());
            assert(seq![other@].drop_first() =~= Seq::<Seq<char>>::empty());
            lemma_text_order(self@, self@);
        }
        before
    }

    fn same_choice(&self, other: &Self) -> (same: bool) {
        let same = *self == *other;
        proof {
            if seq![self@] == seq![other@] {
                assert(seq![self@][0] == seq![other@][0]);
            }
        }
        same
    }
}

pub open spec fn keys_of<T: ChoiceKey>(values: Seq<T>) -> Seq<Seq<Seq<char>>> {
    values.map_values(|value: T| value.choice_key())
}

/// Every key sorts strictly before every later one.
pub open spec fn sorted_keys(keys: Seq<Seq<Seq<char>>>) -> bool {
    forall|i: int, j: int| 0 <= i < j < keys.len() ==> keys_before(#[trigger] keys[i], #[trigger] keys[j])
}

/// Number of keys that sort before `key`: where `key` belongs.
pub open spec fn insertion_point(keys: Seq<Seq<Seq<char>>>, key: Seq<Seq<char>>) -> nat
    decreases keys.len(),
{
    if keys.len() == 0 {
        0
    } else if keys_before(keys.last(), key) {
        insertion_point(keys.drop_last(), key) + 1
    } else {
        insertion_point(keys.drop_last(), key)
    }
}

/// The keys after offering `key` to a set capped at `max` entries, and
/// whether the cap turned a new key away.
pub open spec fn bounded_insert(
    keys: Seq<Seq<Seq<char>>>,
    key: Seq<Seq<char>>,
    max: nat,
    truncated: bool,
) -> (Seq<Seq<Seq<char>>>, bool) {
    if keys.contains(key) {
        (keys, truncated)
    } else if keys.len() == max {
        (keys, true)
    } else {
        (keys.insert(insertion_point(keys, key) as int, key), truncated)
    }
}

/// Offering each of `items` in turn.
pub open spec fn bounded_insert_all(
    keys: Seq<Seq<Seq<char>>>,
    items: Seq<Seq<Seq<char>>>,
    max: nat,
    truncated: bool,
) -> (Seq<Seq<Seq<char>>>, bool)
    decreases items.len(),
{
    if items.len() == 0 {
        (keys, truncated)
    } else {
        let (before, cut) = bounded_insert_all(keys, items.drop_last(), max, truncated);
        bounded_insert(before, items.last(), max, cut)
    }
}

proof fn lemma_insertion_point(keys: Seq<Seq<Seq<char>>>, key: Seq<Seq<char>>, point: int)
    requires
        0 <= point <= keys.len(),
        forall|i: int| 0 <= i < point ==> keys_before(#[trigger] keys[i], key),
        forall|i: int| point <= i < keys.len() ==> !keys_before(#[trigger] keys[i], key),
    ensures
        insertion_point(keys, key) == point,
    decreases keys.len(),
{
    if keys.len() > 0 {
        let rest = keys.drop_last();
        if point == keys.len() {
            assert(keys_before(keys[keys.len() - 1], key));
            lemma_insertion_point(rest, key, point - 1);
        } else {
            assert(!keys_before(keys[keys.len() - 1], key));
            lemma_insertion_point(rest, key, point);
        }
    }
}

/// Where `value` belongs in the sorted set `values`, and whether it is
/// already there.
pub(crate) fn locate_choice<T: ChoiceKey>(values: &Vec<T>, value: &T) -> (found: (usize, bool))
    requires
        sorted_keys(keys_of(values@)),
    ensures
        found.0 == insertion_point(keys_of(values@), value.choice_key()),
        found.1 == keys_of(values@).contains(value.choice_key()),
        found.0 <= values@.len(),
        found.1 ==> found.0 < values@.len() && keys_of(values@)[found.0 as int] == value.choice_key(),
{
    let ghost keys = keys_of(values@);
    let ghost key = value.choice_key();
    let mut p: usize = 0;
    while p < values.len() && values[p].precedes(value)
        invariant
            keys == keys_of(values@),
            key == value.choice_key(),
            p <= values@.len(),
            forall|i: int| 0 <= i < p ==> keys_before(#[trigger] keys[i], key),
        decreases values.len() - p,
    {
        p = p + 1;
    }
    proof {
        assert forall|i: int| p <= i < keys.len() implies !keys_before(#[trigger] keys[i], key) by {
            if i > p && keys_before(keys[i], key) {
                assert(keys_before(keys[p as int], keys[i]));
                lemma_keys_transitive(keys[p as int], keys[i], key);
            }
        }
        lemma_insertion_point(keys, key, p as int);
    }
    if p < values.len() && values[p].same_choice(value) {
        assert(keys[p as int] == key);
        return (p, true);
    }
    proof {
        assert forall|i: int| 0 <= i < keys.len() implies #[trigger] keys[i] != key by {
            lemma_keys_order(key, key);
            if i > p {
                assert(keys_before(keys[p as int], keys[i]));
            }
        }
    }
    (p, false)
}

proof fn lemma_insert_keeps_sorted(keys: Seq<Seq<Seq<char>>>, key: Seq<Seq<char>>)
    requires
        sorted_keys(keys),
        !keys.contains(key),
    ensures
        sorted_keys(keys.insert(insertion_point(keys, key) as int, key)),
{
    let p = insertion_point(keys, key) as int;
    lemma_insertion_point_splits(keys, key);
    let grown = keys.insert(p, key);
    assert forall|i: int, j: int| 0 <= i < j < grown.len() implies keys_before(
        #[trigger] grown[i],
        #[trigger] grown[j],
    ) by {
        if j == p {
            assert(grown[i] == keys[i]);
        } else if i == p {
            assert(grown[j] == keys[j - 1]);
            assert(!keys_before(keys[j - 1], key));
            assert(keys[j - 1] != key);
            lemma_keys_order(key, keys[j - 1]);
        } else if i < p && j > p {
            assert(grown[j] == keys[j - 1]);
            assert(grown[i] == keys[i]);
        } else if i > p {
            assert(grown[i] == keys[i - 1]);
            assert(grown[j] == keys[j - 1]);
        }
    }
}

/// In a sorted set, the keys before the insertion point of `key` sort
/// before it and the others do not.
proof fn lemma_insertion_point_splits(keys: Seq<Seq<Seq<char>>>, key: Seq<Seq<char>>)
    requires
        sorted_keys(keys),
    ensures
        insertion_point(keys, key) <= keys.len(),
        forall|i: int| 0 <= i < insertion_point(keys, key) ==> keys_before(#[trigger] keys[i], key),
        forall|i: int|
            insertion_point(keys, key) <= i < keys.len() ==> !keys_before(#[trigger] keys[i], key),
    decreases keys.len(),
{
    if keys.len() > 0 {
        let rest = keys.drop_last();
        assert(sorted_keys(rest));
        lemma_insertion_point_splits(rest, key);
        let last = keys.len() - 1;
        if keys_before(keys[last], key) {
            assert forall|i: int| 0 <= i < last implies keys_before(#[trigger] keys[i], key) by {
                assert(keys_before(keys[i], keys[last]));
                lemma_keys_transitive(keys[i], keys[last], key);
            }
            if insertion_point(rest, key) < last {
                let q = insertion_point(rest, key) as int;
                assert(rest[q] == keys[q]);
                assert(keys_before(keys[q], key));
            }
            assert(insertion_point(keys, key) == last + 1);
        } else {
            assert(insertion_point(keys, key) == insertion_point(rest, key));
            assert forall|i: int| 0 <= i < insertion_point(keys, key) implies keys_before(
                #[trigger] keys[i],
                key,
            ) by {
                assert(rest[i] == keys[i]);
            }
            assert forall|i: int| insertion_point(rest, key) <= i < last implies !keys_before(
                #[trigger] keys[i],
                key,
            ) by {
                assert(rest[i] == keys[i]);
            }
        }
    }
}

/// Offers `value` to the sorted set `values` capped at `max_choices`: a
/// value already present changes nothing; a new value is turned away when
/// the set is full, which sets `truncated`; otherwise it is inserted in
/// order.
pub fn insert_bounded<T: ChoiceKey>(
    values: &mut Vec<T>,
    value: T,
    max_choices: usize,
    truncated: &mut bool,
)
    requires
        sorted_keys(keys_of(old(values)@)),
    ensures
        sorted_keys(keys_of(final(values)@)),
        (keys_of(final(values)@), *final(truncated)) == bounded_insert(
            keys_of(old(values)@),
            value.choice_key(),
            max_choices as nat,
            *old(truncated),
        ),
        !keys_of(old(values)@).contains(value.choice_key()) && old(values)@.len() != max_choices
            ==> final(values)@ == old(values)@.insert(
            insertion_point(keys_of(old(values)@), value.choice_key()) as int,
            value,
        ),
        keys_of(old(values)@).contains(value.choice_key()) || old(values)@.len() == max_choices
            ==> final(values)@ == old(values)@,
{
    let (p, present) = locate_choice(values, &value);
    if present {
        return;
    }
    if values.len() == max_choices {
        *truncated = true;
        return;
    }
    insert_choice_at(values, p, value);
}

pub(crate) fn insert_choice_at<T: ChoiceKey>(values: &mut Vec<T>, p: usize, value: T)
    requires
        sorted_keys(keys_of(old(values)@)),
        !keys_of(old(values)@).contains(value.choice_key()),
        p == insertion_point(keys_of(old(values)@), value.choice_key()),
        p <= old(values)@.len(),
    ensures
        final(values)@ == old(values)@.insert(p as int, value),
        keys_of(final(values)@) == keys_of(old(values)@).insert(p as int, value.choice_key()),
        sorted_keys(keys_of(final(values)@)),
{
    let ghost keys = keys_of(values@);
    values.insert(p, value);
    assert(keys_of(values@) =~= keys.insert(p as int, value.choice_key()));
    proof {
        lemma_insert_keeps_sorted(keys, value.choice_key());
    }
}

/// Adds `value` to the sorted set `values` unless it is already there.
pub fn insert_choice<T: ChoiceKey>(values: &mut Vec<T>, value: T)
    requires
        sorted_keys(keys_of(old(values)@)),
    ensures
        sorted_keys(keys_of(final(values)@)),
        keys_of(old(values)@).contains(value.choice_key()) ==> final(values)@ == old(values)@,
        !keys_of(old(values)@).contains(value.choice_key()) ==> final(values)@ == old(
            values,
        )@.insert(insertion_point(keys_of(old(values)@), value.choice_key()) as int, value),
        keys_of(final(values)@).to_set() == keys_of(old(values)@).to_set().insert(
            value.choice_key(),
        ),
{
    let ghost keys = keys_of(values@);
    let (p, present) = locate_choice(values, &value);
    if present {
        assert(keys.to_set().insert(value.choice_key()) =~= keys.to_set());
        return;
    }
    insert_choice_at(values, p, value);
    proof {
        let grown = keys.insert(p as int, value.choice_key());
        assert forall|k: Seq<Seq<char>>| grown.to_set().contains(k) <==> keys.to_set().insert(
            value.choice_key(),
        ).contains(k) by {
            if grown.contains(k) {
                let i = choose|i: int| 0 <= i < grown.len() && grown[i] == k;
                if i < p {
                    assert(keys[i] == k);
                } else if i > p {
                    assert(keys[i - 1] == k);
                }
            }
            if keys.contains(k) {
                let i = choose|i: int| 0 <= i < keys.len() && keys[i] == k;
                if i < p {
                    assert(grown[i] == k);
                } else {
                    assert(grown[i + 1] == k);
                }
            }
            if k == value.choice_key() {
                assert(grown[p as int] == k);
            }
        }
        assert(grown.to_set() =~= keys.to_set().insert(value.choice_key()));
    }
}

/// A named field met under a shape: which field of which shape, and the
/// shape of the field's value.
#[derive(Clone, Debug, PartialEq, Eq, PartialOrd, Ord)]
pub struct BreadcrumbContextField {
    selection: ProjectedField,
    field_shape: String,
}

pub struct ContextFieldView {
    pub selection: ProjectedFieldView,
    pub field_shape: Seq<char>,
}

impl View for BreadcrumbContextField {
    type V = ContextFieldView;

    closed spec fn view(&self) -> ContextFieldView {
        ContextFieldView { selection: self.selection@, field_shape: self.field_shape@ }
    }
}

/// The ordering key of a context field: owner shape, field name, field shape.
pub open spec fn field_key(field: ContextFieldView) -> Seq<Seq<char>> {
    seq![field.selection.shape, field.selection.field, field.field_shape]
}

impl BreadcrumbContextField {
    pub fn new(selection: ProjectedField, field_shape: &str) -> (field: BreadcrumbContextField)
        ensures
            field@ == (ContextFieldView { selection: selection@, field_shape: field_shape@ }),
    {
        BreadcrumbContextField { selection, field_shape: String::from_str(field_shape) }
    }

    pub fn selection(&self) -> (selection: &ProjectedField)
        ensures
            selection@ == self@.selection,
    {
        &self.selection
    }

    pub fn field_shape(&self) -> (field_shape: &str)
        ensures
            field_shape@ == self@.field_shape,
    {
        self.field_shape.as_str()
    }

    /// `Shape.field (FieldShape)`.
    pub fn label(&self) -> (label: String)
        ensures
            label@ == self@.selection.shape + seq!['.'] + self@.selection.field + seq![' ', '(']
                + self@.field_shape + seq![')'],
    {
        let mut label = self.selection.label();
        push_char(&mut label, ' ');
        push_char(&mut label, '(');
        push_text(&mut label, self.field_shape.as_str());
        push_char(&mut label, ')');
        label
    }

    fn duplicate(&self) -> (copy: BreadcrumbContextField)
        ensures
            copy@ == self@,
    {
        BreadcrumbContextField {
            selection: self.selection.duplicate(),
            field_shape: self.field_shape.clone(),
        }
    }
}

impl ChoiceKey for BreadcrumbContextField {
    open spec fn choice_key(&self) -> Seq<Seq<char>> {
        field_key(self@)
    }

    fn precedes(&self, other: &Self) -> (before: bool) {
        let ghost a = field_key(self@);
        let ghost b = field_key(other@);
        proof {
            reveal_with_fuel(keys_before, 4);
            assert(a.drop_first() =~= seq![a[1], a[2]]);
            assert(b.drop_first() =~= seq![b[1], b[2]]);
            assert(a.drop_first().drop_first() =~= seq![a[2]]);
            assert(b.drop_first().drop_first() =~= seq![b[2]]);
            assert(a.drop_first().drop_first().drop_first() =~= Seq::<Seq<char>>::empty());
            assert(b.drop_first().drop_first().drop_first() =~= Seq::<Seq<char>>::empty());
        }
        if self.selection.shape != other.selection.shape {
            return text_precedes(self.selection.shape.as_str(), other.selection.shape.as_str());
        }
        if self.selection.field != other.selection.field {
            return text_precedes(self.selection.field.as_str(), other.selection.field.as_str());
        }
        if self.field_shape != other.field_shape {
            return text_precedes(self.field_shape.as_str(), other.field_shape.as_str());
        }
        false
    }

    fn same_choice(&self, other: &Self) -> (same: bool) {
        let same = self.selection.shape == other.selection.shape && self.selection.field
            == other.selection.field && self.field_shape == other.field_shape;
        proof {
            let a = field_key(self@);
            let b = field_key(other@);
            if a == b {
                assert(a[0] == b[0] && a[1] == b[1] && a[2] == b[2]);
            }
            if same {
                assert(a =~= b);
            }
        }
        same
    }
}

/// Bounded metadata observed from one query prefix: the shapes met and the
/// named fields met, each a sorted set; how many addresses were inspected;
/// and whether the scan finished with nothing turned away.
#[derive(Debug, PartialEq, Eq)]
pub struct BreadcrumbContextSnapshot {
    shapes: Vec<String>,
    fields: Vec<BreadcrumbContextField>,
    inspected: usize,
    complete: bool,
}

pub struct ContextView {
    pub shapes: Seq<Seq<Seq<char>>>,
    pub fields: Seq<Seq<Seq<char>>>,
    pub inspected: usize,
    pub complete: bool,
}

impl View for BreadcrumbContextSnapshot {
    type V = ContextView;

    closed spec fn view(&self) -> ContextView {
        ContextView {
            shapes: keys_of(self.shapes@),
            fields: keys_of(self.fields@),
            inspected: self.inspected,
            complete: self.complete,
        }
    }
}

impl BreadcrumbContextSnapshot {
    /// Shapes and fields are sorted sets.
    #[verifier::type_invariant]
    spec fn sorted_choices(&self) -> bool {
        sorted_keys(keys_of(self.shapes@)) && sorted_keys(keys_of(self.fields@))
    }

    /// The shapes met, in order.
    pub fn shapes(&self) -> (shapes: &[String])
        ensures
            keys_of(shapes@) == self@.shapes,
            sorted_keys(self@.shapes),
    {
        proof {
            use_type_invariant(self);
        }
        self.shapes.as_slice()
    }

    /// The named fields met, in order.
    pub fn fields(&self) -> (fields: &[BreadcrumbContextField])
        ensures
            keys_of(fields@) == self@.fields,
            sorted_keys(self@.fields),
    {
        proof {
            use_type_invariant(self);
        }
        self.fields.as_slice()
    }

    pub fn inspected(&self) -> (inspected: usize)
        ensures
            inspected == self@.inspected,
    {
        self.inspected
    }

    pub fn complete(&self) -> (complete: bool)
        ensures
            complete == self@.complete,
    {
        self.complete
    }
}

/// Bounded scalar texts of one reflected field.
#[derive(Debug, PartialEq, Eq)]
pub struct BreadcrumbContextValueSnapshot {
    values: Vec<String>,
    inspected: usize,
    complete: bool,
}

pub struct ValueContextView {
    pub values: Seq<Seq<Seq<char>>>,
    pub inspected: usize,
    pub complete: bool,
}

impl View for BreadcrumbContextValueSnapshot {
    type V = ValueContextView;

    closed spec fn view(&self) -> ValueContextView {
        ValueContextView {
            values: keys_of(self.values@),
            inspected: self.inspected,
            complete: self.complete,
        }
    }
}

impl BreadcrumbContextValueSnapshot {
    /// The texts form a sorted set.
    #[verifier::type_invariant]
    spec fn sorted_values(&self) -> bool {
        sorted_keys(keys_of(self.values@))
    }

    /// The texts met, in order.
    pub fn values(&self) -> (values: &[String])
        ensures
            keys_of(values@) == self@.values,
            sorted_keys(self@.values),
    {
        proof {
            use_type_invariant(self);
        }
        self.values.as_slice()
    }

    pub fn inspected(&self) -> (inspected: usize)
        ensures
            inspected == self@.inspected,
    {
        self.inspected
    }

    pub fn complete(&self) -> (complete: bool)
        ensures
            complete == self@.complete,
    {
        self.complete
    }
}

/// The keys of the fields named `named` (name, field shape) under
/// `owner_shape`, in order.
pub open spec fn named_field_keys(
    owner_shape: Seq<char>,
    named: Seq<(String, String)>,
) -> Seq<Seq<Seq<char>>> {
    named.map_values(|f: (String, String)| seq![owner_shape, f.0@, f.1@])
}

pub struct CollectorView {
    pub shapes: Seq<Seq<Seq<char>>>,
    pub fields: Seq<Seq<Seq<char>>>,
    pub max_choices: usize,
    pub truncated: bool,
}

/// Accumulates the shapes and named fields met while a query prefix is
/// scanned for a [`BreadcrumbContextSnapshot`].
pub struct ContextCollector {
    shapes: Vec<String>,
    fields: Vec<BreadcrumbContextField>,
    max_choices: usize,
    truncated: bool,
}

impl View for ContextCollector {
    type V = CollectorView;

    closed spec fn view(&self) -> CollectorView {
        CollectorView {
            shapes: keys_of(self.shapes@),
            fields: keys_of(self.fields@),
            max_choices: self.max_choices,
            truncated: self.truncated,
        }
    }
}

impl ContextCollector {
    pub open spec fn wf(&self) -> bool {
        sorted_keys(self@.shapes) && sorted_keys(self@.fields)
    }

    /// Starts an inspection with a work budget of `max_work` and at most
    /// `max_choices` shapes and fields; both must be positive.
    pub fn start(max_work: usize, max_choices: usize) -> (result: Result<ContextCollector, String>)
        ensures
            max_work == 0 ==> (result matches Err(message) && message@
                == "breadcrumb context inspection needs a positive work budget"@),
            max_work > 0 && max_choices == 0 ==> (result matches Err(message) && message@
                == "breadcrumb context inspection needs a positive choice limit"@),
            max_work > 0 && max_choices > 0 ==> (result matches Ok(collector) && collector.wf()
                && collector@ == (CollectorView {
                shapes: Seq::empty(),
                fields: Seq::empty(),
                max_choices,
                truncated: false,
            })),
    {
        if max_work == 0 {
            return Err(String::from_str("breadcrumb context inspection needs a positive work budget"));
        }
        if max_choices == 0 {
            return Err(String::from_str("breadcrumb context inspection needs a positive choice limit"));
        }
        let collector = ContextCollector {
            shapes: Vec::new(),
            fields: Vec::new(),
            max_choices,
            truncated: false,
        };
        assert(collector@.shapes =~= Seq::<Seq<Seq<char>>>::empty());
        assert(collector@.fields =~= Seq::<Seq<Seq<char>>>::empty());
        Ok(collector)
    }

    /// Records one value met by the scan: its shape `owner_shape`, then each
    /// of its named fields (name and field shape, in declaration order).
    pub fn observe(&mut self, owner_shape: &str, named_fields: &Vec<(String, String)>)
        requires
            old(self).wf(),
        ensures
            final(self).wf(),
            final(self)@.max_choices == old(self)@.max_choices,
            ({
                let (shapes, cut) = bounded_insert(
                    old(self)@.shapes,
                    seq![owner_shape@],
                    old(self)@.max_choices as nat,
                    old(self)@.truncated,
                );
                let (fields, cut_fields) = bounded_insert_all(
                    old(self)@.fields,
                    named_field_keys(owner_shape@, named_fields@),
                    old(self)@.max_choices as nat,
                    cut,
                );
                &&& final(self)@.shapes == shapes
                &&& final(self)@.fields == fields
                &&& final(self)@.truncated == cut_fields
            }),
    {
        insert_bounded(
            &mut self.shapes,
            String::from_str(owner_shape),
            self.max_choices,
            &mut self.truncated,
        );
        let ghost after_shape = self.truncated;
        let ghost start_fields = keys_of(self.fields@);
        let ghost items = named_field_keys(owner_shape@, named_fields@);
        let ghost shapes_after = keys_of(self.shapes@);
        let ghost max = self.max_choices;
        let mut i: usize = 0;
        while i < named_fields.len()
            invariant
                i <= named_fields@.len(),
                keys_of(self.shapes@) == shapes_after,
                sorted_keys(shapes_after),
                self.max_choices == max,
                items == named_field_keys(owner_shape@, named_fields@),
                sorted_keys(keys_of(self.fields@)),
                (keys_of(self.fields@), self.truncated) == bounded_insert_all(
                    start_fields,
                    items.take(i as int),
                    self.max_choices as nat,
                    after_shape,
                ),
            decreases named_fields.len() - i,
        {
            let field = BreadcrumbContextField::new(
                ProjectedField::new(owner_shape, named_fields[i].0.as_str()),
                named_fields[i].1.as_str(),
            );
            assert(items.take(i + 1).drop_last() =~= items.take(i as int));
            assert(field.choice_key() =~= items[i as int]);
            insert_bounded(&mut self.fields, field, self.max_choices, &mut self.truncated);
            i = i + 1;
        }
        assert(items.take(named_fields@.len() as int) =~= items);
    }

    /// The snapshot once the scan stopped after inspecting `inspected`
    /// addresses; complete only when the scan finished (`scan_complete`)
    /// and no choice was turned away.
    pub fn finish(self, inspected: usize, scan_complete: bool) -> (snapshot:
        BreadcrumbContextSnapshot)
        requires
            self.wf(),
        ensures
            snapshot@ == (ContextView {
                shapes: self@.shapes,
                fields: self@.fields,
                inspected,
                complete: scan_complete && !self@.truncated,
            }),
    {
        BreadcrumbContextSnapshot {
            shapes: self.shapes,
            fields: self.fields,
            inspected,
            complete: scan_complete && !self.truncated,
        }
    }
}

pub struct ValueCollectorView {
    pub field_shape: Seq<char>,
    pub field_name: Seq<char>,
    pub values: Seq<Seq<Seq<char>>>,
    pub max_choices: usize,
    pub truncated: bool,
}

/// Accumulates the scalar texts of the field `field_name` (of shape
/// `field_shape`) met while a query prefix is scanned.
pub struct ValueCollector {
    field_shape: String,
    field_name: String,
    values: Vec<String>,
    max_choices: usize,
    truncated: bool,
}

impl View for ValueCollector {
    type V = ValueCollectorView;

    closed spec fn view(&self) -> ValueCollectorView {
        ValueCollectorView {
            field_shape: self.field_shape@,
            field_name: self.field_name@,
            values: keys_of(self.values@),
            max_choices: self.max_choices,
            truncated: self.truncated,
        }
    }
}

impl ValueCollector {
    pub open spec fn wf(&self) -> bool {
        sorted_keys(self@.values)
    }

    /// Starts collecting; both limits must be positive.
    pub fn start(field_shape: &str, field_name: &str, max_work: usize, max_choices: usize) -> (result:
        Result<ValueCollector, String>)
        ensures
            max_work == 0 || max_choices == 0 ==> (result matches Err(message) && message@
                == "breadcrumb value inspection needs positive limits"@),
            max_work > 0 && max_choices > 0 ==> (result matches Ok(collector) && collector.wf()
                && collector@ == (ValueCollectorView {
                field_shape: field_shape@,
                field_name: field_name@,
                values: Seq::empty(),
                max_choices,
                truncated: false,
            })),
    {
        if max_work == 0 || max_choices == 0 {
            return Err(String::from_str("breadcrumb value inspection needs positive limits"));
        }
        let collector = ValueCollector {
            field_shape: String::from_str(field_shape),
            field_name: String::from_str(field_name),
            values: Vec::new(),
            max_choices,
            truncated: false,
        };
        assert(collector@.values =~= Seq::<Seq<Seq<char>>>::empty());
        Ok(collector)
    }

    /// How many children of an address are considered: one more than the
    /// choice limit, so that an overflow is noticed.
    pub fn child_limit(&self) -> (limit: usize)
        ensures
            limit == (if self@.max_choices == usize::MAX {
                usize::MAX as int
            } else {
                self@.max_choices + 1
            }),
    {
        if self.max_choices == usize::MAX {
            usize::MAX
        } else {
            self.max_choices + 1
        }
    }

    /// Considers one address: `last_field` is the name of its final path
    /// step when that step is a field, `resolved_shape` the shape of the
    /// value it resolves to (`None` when it does not resolve), and
    /// `scalar_text` the value's scalar text (`None` for a composite). Its
    /// text is kept when the field name and shape are the ones collected.
    pub fn consider(
        &mut self,
        last_field: Option<&str>,
        resolved_shape: Option<&str>,
        scalar_text: Option<&str>,
    )
        requires
            old(self).wf(),
        ensures
            final(self).wf(),
            final(self)@.field_shape == old(self)@.field_shape,
            final(self)@.field_name == old(self)@.field_name,
            final(self)@.max_choices == old(self)@.max_choices,
            ({
                let wanted = (match last_field {
                    Some(name) => name@ == old(self)@.field_name,
                    None => false,
                }) && (match resolved_shape {
                    Some(shape) => shape@ == old(self)@.field_shape,
                    None => false,
                }) && scalar_text is Some;
                if wanted {
                    (final(self)@.values, final(self)@.truncated) == bounded_insert(
                        old(self)@.values,
                        seq![scalar_text.unwrap()@],
                        old(self)@.max_choices as nat,
                        old(self)@.truncated,
                    )
                } else {
                    final(self)@ == old(self)@
                }
            }),
    {
        let name = match last_field {
            Some(name) => name,
            None => return,
        };
        if !same_text(name, self.field_name.as_str()) {
            return;
        }
        let shape = match resolved_shape {
            Some(shape) => shape,
            None => return,
        };
        if !same_text(shape, self.field_shape.as_str()) {
            return;
        }
        let text = match scalar_text {
            Some(text) => text,
            None => return,
        };
        insert_bounded(&mut self.values, String::from_str(text), self.max_choices, &mut self.truncated);
    }

    /// The snapshot once the scan stopped after inspecting `inspected`
    /// addresses; complete only when the scan finished and no text was
    /// turned away.
    pub fn finish(self, inspected: usize, scan_complete: bool) -> (snapshot:
        BreadcrumbContextValueSnapshot)
        requires
            self.wf(),
        ensures
            snapshot@ == (ValueContextView {
                values: self@.values,
                inspected,
                complete: scan_complete && !self@.truncated,
            }),
    {
        BreadcrumbContextValueSnapshot {
            values: self.values,
            inspected,
            complete: scan_complete && !self.truncated,
        }
    }
}

fn copy_texts(texts: &Vec<String>) -> (copy: Vec<String>)
    ensures
        keys_of(copy@) == keys_of(texts@),
{
    let mut copy: Vec<String> = Vec::new();
    let mut i: usize = 0;
    while i < texts.len()
        invariant
            i <= texts@.len(),
            copy@.len() == i,
            forall|j: int| 0 <= j < i ==> #[trigger] copy@[j]@ == texts@[j]@,
        decreases texts.len() - i,
    {
        copy.push(texts[i].clone());
        i = i + 1;
    }
    assert(keys_of(copy@) =~= keys_of(texts@));
    copy
}

fn copy_context_fields(fields: &Vec<BreadcrumbContextField>) -> (copy: Vec<BreadcrumbContextField>)
    ensures
        keys_of(copy@) == keys_of(fields@),
{
    let mut copy: Vec<BreadcrumbContextField> = Vec::new();
    let mut i: usize = 0;
    while i < fields.len()
        invariant
            i <= fields@.len(),
            copy@.len() == i,
            forall|j: int| 0 <= j < i ==> #[trigger] copy@[j]@ == fields@[j]@,
        decreases fields.len() - i,
    {
        copy.push(fields[i].duplicate());
        i = i + 1;
    }
    assert(keys_of(copy@) =~= keys_of(fields@));
    copy
}

impl Clone for BreadcrumbContextSnapshot {
    fn clone(&self) -> (copy: Self)
        ensures
            copy@ == self@,
    {
        proof {
            use_type_invariant(self);
        }
        BreadcrumbContextSnapshot {
            shapes: copy_texts(&self.shapes),
            fields: copy_context_fields(&self.fields),
            inspected: self.inspected,
            complete: self.complete,
        }
    }
}

impl Clone for BreadcrumbContextValueSnapshot {
    fn clone(&self) -> (copy: Self)
        ensures
            copy@ == self@,
    {
        proof {
            use_type_invariant(self);
        }
        BreadcrumbContextValueSnapshot {
            values: copy_texts(&self.values),
            inspected: self.inspected,
            complete: self.complete,
        }
    }
}


/// Offering a choice never grows a set past its limit, and once a choice
/// has been turned away the snapshot stays marked incomplete.
pub proof fn law_bounded_choices_stay_within_the_limit(
    keys: Seq<Seq<Seq<char>>>,
    key: Seq<Seq<char>>,
    max: nat,
    truncated: bool,
)
    requires
        keys.len() <= max,
    ensures
        bounded_insert(keys, key, max, truncated).0.len() <= max,
        truncated ==> bounded_insert(keys, key, max, truncated).1,
        bounded_insert(keys, key, max, truncated).0.to_set().subset_of(keys.to_set().insert(key)),
{
    let result = bounded_insert(keys, key, max, truncated).0;
    if !keys.contains(key) && keys.len() != max {
        lemma_insertion_point_bound(keys, key);
        let p = insertion_point(keys, key) as int;
        assert forall|k: Seq<Seq<char>>| result.to_set().contains(k) implies keys.to_set().insert(key).contains(k) by {
            let i = choose|i: int| 0 <= i < result.len() && result[i] == k;
            if i < p {
                assert(keys[i] == k);
            } else if i > p {
                assert(keys[i - 1] == k);
            }
        }
    }
}


proof fn lemma_insertion_point_bound(keys: Seq<Seq<Seq<char>>>, key: Seq<Seq<char>>)
    ensures
        insertion_point(keys, key) <= keys.len(),
    decreases keys.len(),
{
    if keys.len() > 0 {
        lemma_insertion_point_bound(keys.drop_last(), key);
    }
}

} // verus!
